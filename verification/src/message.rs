//! The fixed-capacity payload buffer that every connection reuses across its
//! read/process/write cycles, and the tag that tells a text payload from a
//! binary one.

use vstd::prelude::*;

verus! {

/// Greatest number of payload bytes one read, one frame or one write may
/// carry.
pub const MAX_BUFFER_SIZE: usize = 1024;

/// Tag for the payload carried by one exchange. For raw byte streams the tag
/// is advisory; for WebSocket connections it selects the outbound frame type
/// and makes text payloads subject to UTF-8 revalidation.
#[derive(Clone, Copy, Debug, PartialEq, Eq, Structural)]
pub enum MessageType {
    Binary,
    Text,
}

/// A byte buffer of fixed capacity [`MAX_BUFFER_SIZE`] with a logical length.
/// It is allocated once per connection and never grows; the logical length
/// says how many leading bytes are meaningful to the caller. Bytes past the
/// logical length keep whatever value an earlier exchange left there, except
/// where [`MessageBuffer::zero_fill_tail`] clears them.
pub struct MessageBuffer {
    data: Vec<u8>,
    len: usize,
}

impl View for MessageBuffer {
    type V = Seq<u8>;

    closed spec fn view(&self) -> Seq<u8> {
        self.data@
    }
}

impl MessageBuffer {
    #[verifier::type_invariant]
    spec fn inv(self) -> bool {
        &&& self.data@.len() == MAX_BUFFER_SIZE
        &&& self.len <= MAX_BUFFER_SIZE
    }

    /// The logical length: how many leading bytes are meaningful.
    pub closed spec fn size_spec(self) -> int {
        self.len as int
    }

    /// A fresh buffer: full capacity of zero bytes, logical length zero.
    pub fn new() -> (b: MessageBuffer)
        ensures
            b@.len() == MAX_BUFFER_SIZE as int,
            forall|j: int| 0 <= j < MAX_BUFFER_SIZE as int ==> b@[j] == 0u8,
            b.size_spec() == 0,
    {
        MessageBuffer { data: vec![0u8; MAX_BUFFER_SIZE], len: 0 }
    }

    /// The logical length, together with the capacity facts every caller
    /// needs.
    pub fn size(&self) -> (n: usize)
        ensures
            n == self.size_spec(),
            n <= MAX_BUFFER_SIZE,
            self@.len() == MAX_BUFFER_SIZE as int,
    {
        proof {
            use_type_invariant(&*self);
        }
        self.len
    }

    /// The byte at position `i`, or zero when `i` is outside the capacity.
    pub fn get(&self, i: usize) -> (b: u8)
        ensures
            i < MAX_BUFFER_SIZE ==> b == self@[i as int],
            i >= MAX_BUFFER_SIZE ==> b == 0u8,
    {
        proof {
            use_type_invariant(&*self);
        }
        if i < MAX_BUFFER_SIZE {
            self.data[i]
        } else {
            0u8
        }
    }

    /// Copies `src` over the front of the buffer and makes the logical length
    /// `src.len()`. Bytes past the copied region keep their previous values.
    /// Refuses a slice longer than the capacity and then changes nothing.
    pub fn load(&mut self, src: &[u8]) -> (ok: bool)
        ensures
            final(self)@.len() == MAX_BUFFER_SIZE as int,
            src@.len() <= MAX_BUFFER_SIZE as int ==> {
                &&& ok
                &&& final(self).size_spec() == src@.len()
                &&& forall|j: int| 0 <= j < src@.len() ==> final(self)@[j] == src@[j]
                &&& forall|j: int|
                    src@.len() <= j < MAX_BUFFER_SIZE as int ==> final(self)@[j] == old(self)@[j]
            },
            src@.len() > MAX_BUFFER_SIZE as int ==> {
                &&& !ok
                &&& final(self)@ == old(self)@
                &&& final(self).size_spec() == old(self).size_spec()
            },
    {
        proof {
            use_type_invariant(&*self);
        }
        if src.len() > MAX_BUFFER_SIZE {
            return false;
        }
        let n = src.len();
        let mut i: usize = 0;
        while i < n
            invariant
                i <= n,
                n == src@.len(),
                n <= MAX_BUFFER_SIZE,
                self.data@.len() == MAX_BUFFER_SIZE as int,
                self.len <= MAX_BUFFER_SIZE,
                forall|j: int| 0 <= j < i as int ==> self.data@[j] == src@[j],
                forall|j: int|
                    i as int <= j < MAX_BUFFER_SIZE as int ==> self.data@[j] == old(self)@[j],
            decreases n - i,
        {
            self.data[i] = src[i];
            i += 1;
        }
        self.len = n;
        true
    }

    /// Sets the logical length without touching the bytes. Refuses a length
    /// beyond the capacity and then changes nothing.
    pub fn set_size(&mut self, n: usize) -> (ok: bool)
        ensures
            final(self)@ == old(self)@,
            n <= MAX_BUFFER_SIZE ==> ok && final(self).size_spec() == n,
            n > MAX_BUFFER_SIZE ==> !ok && final(self).size_spec() == old(self).size_spec(),
    {
        proof {
            use_type_invariant(&*self);
        }
        if n <= MAX_BUFFER_SIZE {
            self.len = n;
            true
        } else {
            false
        }
    }

    /// Overwrites every byte past the logical length with zero, so that the
    /// whole capacity can be reinterpreted as one value.
    pub fn zero_fill_tail(&mut self)
        ensures
            final(self)@.len() == MAX_BUFFER_SIZE as int,
            final(self).size_spec() == old(self).size_spec(),
            forall|j: int| 0 <= j < old(self).size_spec() ==> final(self)@[j] == old(self)@[j],
            forall|j: int|
                old(self).size_spec() <= j < MAX_BUFFER_SIZE as int ==> final(self)@[j] == 0u8,
    {
        proof {
            use_type_invariant(&*self);
        }
        let mut i: usize = self.len;
        while i < MAX_BUFFER_SIZE
            invariant
                self.len <= i <= MAX_BUFFER_SIZE,
                self.data@.len() == MAX_BUFFER_SIZE as int,
                self.len == old(self).size_spec(),
                forall|j: int| 0 <= j < self.len as int ==> self.data@[j] == old(self)@[j],
                forall|j: int| self.len as int <= j < i as int ==> self.data@[j] == 0u8,
            decreases MAX_BUFFER_SIZE - i,
        {
            self.data[i] = 0u8;
            i += 1;
        }
    }

    /// A copy of the meaningful bytes: the prefix of the logical length.
    pub fn prefix_vec(&self) -> (v: Vec<u8>)
        ensures
            v@ == self@.subrange(0, self.size_spec()),
    {
        proof {
            use_type_invariant(&*self);
        }
        let mut v: Vec<u8> = Vec::new();
        let mut i: usize = 0;
        while i < self.len
            invariant
                i <= self.len,
                self.len <= MAX_BUFFER_SIZE,
                self.data@.len() == MAX_BUFFER_SIZE as int,
                v@.len() == i as int,
                forall|j: int| 0 <= j < i as int ==> v@[j] == self.data@[j],
            decreases self.len - i,
        {
            v.push(self.data[i]);
            i += 1;
        }
        proof {
            assert(v@ =~= self@.subrange(0, self.size_spec()));
        }
        v
    }

    /// A copy of the whole capacity, tail bytes included.
    pub fn full_vec(&self) -> (v: Vec<u8>)
        ensures
            v@ == self@,
            v@.len() == MAX_BUFFER_SIZE as int,
    {
        proof {
            use_type_invariant(&*self);
        }
        let mut v: Vec<u8> = Vec::new();
        let mut i: usize = 0;
        while i < MAX_BUFFER_SIZE
            invariant
                i <= MAX_BUFFER_SIZE,
                self.data@.len() == MAX_BUFFER_SIZE as int,
                v@.len() == i as int,
                forall|j: int| 0 <= j < i as int ==> v@[j] == self.data@[j],
            decreases MAX_BUFFER_SIZE - i,
        {
            v.push(self.data[i]);
            i += 1;
        }
        proof {
            assert(v@ =~= self@);
        }
        v
    }
}

} // verus!
