//! The caller-owned output region: a buffer of fixed capacity plus the
//! "actual length written" cell. The type makes the central bound - the
//! written length never exceeds the capacity - a structural property
//! rather than caller discipline.

use vstd::prelude::*;

verus! {

/// A fixed-capacity destination buffer. The adapter never grows it; a
/// write that would not fit is refused before a single byte moves.
pub struct OutputBuffer {
    data: Vec<u8>,
    len: usize,
}

impl OutputBuffer {
    /// The written length is always within the declared capacity.
    pub closed spec fn wf(&self) -> bool {
        self.len <= self.data@.len()
    }

    /// Declared capacity, in bytes.
    pub closed spec fn spec_capacity(&self) -> nat {
        self.data@.len()
    }

    /// The bytes actually written so far.
    pub closed spec fn written(&self) -> Seq<u8> {
        self.data@.subrange(0, self.len as int)
    }

    /// A freshly zeroed buffer of the given capacity, with nothing
    /// written.
    pub fn new(capacity: usize) -> (b: OutputBuffer)
        ensures
            b.wf(),
            b.spec_capacity() == capacity,
            b.written() == Seq::<u8>::empty(),
            forall|i: int| 0 <= i < capacity ==> b.raw_view()[i] == 0,
    {
        let mut data: Vec<u8> = Vec::new();
        let mut i: usize = 0;
        while i < capacity
            invariant
                0 <= i <= capacity,
                data@.len() == i,
                forall|j: int| 0 <= j < i ==> data@[j] == 0,
            decreases capacity - i,
        {
            data.push(0);
            i += 1;
        }
        let b = OutputBuffer { data, len: 0 };
        proof {
            assert(b.written() =~= Seq::<u8>::empty());
        }
        b
    }

    /// A well-formed buffer never reports more written bytes than its
    /// declared capacity, whatever was done to it.
    pub proof fn lemma_written_within_capacity(&self)
        requires
            self.wf(),
        ensures
            self.written().len() <= self.spec_capacity(),
    {
    }

    /// The whole underlying region, written or not.
    pub closed spec fn raw_view(&self) -> Seq<u8> {
        self.data@
    }

    pub fn capacity(&self) -> (c: usize)
        ensures
            c == self.spec_capacity(),
    {
        self.data.len()
    }

    /// Number of bytes actually written.
    pub fn written_len(&self) -> (n: usize)
        requires
            self.wf(),
        ensures
            n == self.written().len(),
    {
        self.len
    }

    /// Copy `bytes` into the buffer and set the written length. Only
    /// called with a result that fits: the capacity bound is enforced
    /// before any byte is stored.
    pub fn write_result(&mut self, bytes: &Vec<u8>)
        requires
            old(self).wf(),
            bytes@.len() <= old(self).spec_capacity(),
        ensures
            final(self).wf(),
            final(self).spec_capacity() == old(self).spec_capacity(),
            final(self).written() == bytes@,
    {
        let n = bytes.len();
        let mut i: usize = 0;
        while i < n
            invariant
                0 <= i <= n,
                n == bytes@.len(),
                n <= self.data@.len(),
                self.data@.len() == old(self).spec_capacity(),
                forall|j: int| 0 <= j < i ==> self.data@[j] == bytes@[j],
            decreases n - i,
        {
            self.data.set(i, bytes[i]);
            i += 1;
        }
        self.len = n;
        proof {
            assert(self.written() =~= bytes@);
        }
    }

    /// The written bytes as a fresh vector.
    pub fn written_bytes(&self) -> (r: Vec<u8>)
        requires
            self.wf(),
        ensures
            r@ == self.written(),
    {
        let mut r: Vec<u8> = Vec::new();
        let mut i: usize = 0;
        while i < self.len
            invariant
                0 <= i <= self.len,
                self.wf(),
                r@ == self.data@.subrange(0, i as int),
            decreases self.len - i,
        {
            r.push(self.data[i]);
            proof {
                assert(r@ =~= self.data@.subrange(0, i + 1));
            }
            i += 1;
        }
        proof {
            assert(r@ =~= self.written());
        }
        r
    }
}

} // verus!
