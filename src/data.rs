//! Byte buffers.
//!
//! A `CFData` is a read-only byte buffer that may be shared; a `CFMutableData`
//! is a growable byte buffer with exactly one owner. The contents of both are
//! modelled as a `Seq<u8>`, and every length fits in a `CFIndex`.
use vstd::prelude::*;

verus! {

/// The signed integer type in which buffer lengths are reported.
pub type CFIndex = isize;

/// The largest length that a buffer may reach: the largest `CFIndex`.
pub open spec fn max_len() -> nat {
    isize::MAX as nat
}

/// A read-only byte buffer.
pub struct CFData {
    contents: Vec<u8>,
}

impl View for CFData {
    type V = Seq<u8>;

    closed spec fn view(&self) -> Seq<u8> {
        self.contents@
    }
}

impl CFData {
    #[verifier::type_invariant]
    spec fn length_fits(&self) -> bool {
        self.contents@.len() <= max_len()
    }

    /// Makes a buffer that holds a copy of `buffer`.
    pub fn from_buffer(buffer: &[u8]) -> (r: CFData)
        requires
            buffer@.len() <= max_len(),
        ensures
            r@ == buffer@,
    {
        let mut contents: Vec<u8> = Vec::new();
        contents.extend_from_slice(buffer);
        CFData { contents }
    }

    /// The bytes of the buffer.
    pub fn bytes(&self) -> (r: &[u8])
        ensures
            r@ == self@,
    {
        self.contents.as_slice()
    }

    /// The number of bytes in the buffer.
    pub fn len(&self) -> (r: CFIndex)
        ensures
            r as int == self@.len(),
            0 <= r,
    {
        proof {
            use_type_invariant(self);
        }
        self.contents.len() as CFIndex
    }
}

impl Clone for CFData {
    /// Another handle on the same contents.
    fn clone(&self) -> (r: CFData)
        ensures
            r@ == self@,
    {
        proof {
            use_type_invariant(self);
        }
        let mut contents: Vec<u8> = Vec::new();
        contents.extend_from_slice(self.contents.as_slice());
        CFData { contents }
    }
}

impl core::ops::Deref for CFData {
    type Target = [u8];

    fn deref(&self) -> (r: &[u8])
        ensures
            r@ == self@,
    {
        self.bytes()
    }
}

/// A growable byte buffer with exactly one owner.
///
/// The type is neither `Clone` nor `Copy`: a second handle on the same bytes
/// cannot be made, so a `&mut [u8]` from `bytes_mut` never aliases another view.
pub struct CFMutableData {
    contents: Vec<u8>,
    maximum_capacity: usize,
}

impl View for CFMutableData {
    type V = Seq<u8>;

    closed spec fn view(&self) -> Seq<u8> {
        self.contents@
    }
}

/// Whether a buffer made with `maximum_capacity` may hold `len` bytes: the
/// length fits in a `CFIndex`, and a nonzero capacity is not exceeded.
pub open spec fn fits_capacity(maximum_capacity: nat, len: nat) -> bool {
    &&& len <= max_len()
    &&& (maximum_capacity == 0 || len <= maximum_capacity)
}

/// The contents after `set_len(new_len)`: the first `new_len` bytes where
/// that is shorter, else the contents followed by zero bytes.
pub open spec fn resized(s: Seq<u8>, new_len: nat) -> Seq<u8> {
    if new_len <= s.len() {
        s.subrange(0, new_len as int)
    } else {
        s + Seq::new((new_len - s.len()) as nat, |i: int| 0u8)
    }
}

impl CFMutableData {
    /// The capacity bound fits in a `CFIndex`, and the contents fit within it.
    pub closed spec fn wf(&self) -> bool {
        &&& self.maximum_capacity <= max_len()
        &&& fits_capacity(self.maximum_capacity as nat, self.contents@.len())
    }

    /// The capacity bound the buffer was made with; `0` means unbounded.
    pub closed spec fn capacity(&self) -> nat {
        self.maximum_capacity as nat
    }

    /// Whether the buffer may be given the length `len`.
    pub open spec fn admits_len(&self, len: nat) -> bool {
        fits_capacity(self.capacity(), len)
    }

    /// An empty buffer whose capacity is not bounded.
    pub fn new() -> (r: CFMutableData)
        ensures
            r.wf(),
            r@ == Seq::<u8>::empty(),
            r.capacity() == 0,
    {
        CFMutableData::with_maximum_capacity(0)
    }

    /// An empty buffer that may hold at most `maximum_capacity` bytes; `0`
    /// does not bound the capacity.
    pub fn with_maximum_capacity(maximum_capacity: usize) -> (r: CFMutableData)
        requires
            maximum_capacity <= max_len(),
        ensures
            r.wf(),
            r@ == Seq::<u8>::empty(),
            r.capacity() == maximum_capacity,
    {
        CFMutableData { contents: Vec::new(), maximum_capacity }
    }

    /// The bytes of the buffer.
    pub fn bytes(&self) -> (r: &[u8])
        ensures
            r@ == self@,
    {
        self.contents.as_slice()
    }

    /// The bytes of the buffer, to be changed in place. The length stays.
    pub fn bytes_mut(&mut self) -> (r: &mut [u8])
        ensures
            r@ == old(self)@,
            final(self)@ == final(r)@,
            final(self).capacity() == old(self).capacity(),
            old(self).wf() && final(r)@.len() == r@.len() ==> final(self).wf(),
    {
        self.contents.as_mut_slice()
    }

    /// Appends `bytes` at the end of the buffer.
    pub fn extend_from_slice(&mut self, bytes: &[u8])
        requires
            old(self).wf(),
            old(self).admits_len(old(self)@.len() + bytes@.len()),
        ensures
            final(self).wf(),
            final(self)@ == old(self)@ + bytes@,
            final(self).capacity() == old(self).capacity(),
    {
        self.contents.extend_from_slice(bytes);
    }

    /// The number of bytes in the buffer.
    pub fn len(&self) -> (r: CFIndex)
        requires
            self.wf(),
        ensures
            r as int == self@.len(),
            0 <= r,
    {
        self.contents.len() as CFIndex
    }

    /// Truncates the buffer to `len` bytes, or extends it with zero bytes to
    /// that length.
    pub fn set_len(&mut self, len: usize)
        requires
            old(self).wf(),
            old(self).admits_len(len as nat),
        ensures
            final(self).wf(),
            final(self)@ == resized(old(self)@, len as nat),
            final(self).capacity() == old(self).capacity(),
    {
        self.contents.resize(len, 0u8);
        proof {
            assert(final(self)@ =~= resized(old(self)@, len as nat));
        }
    }

    /// The read-only buffer over the same bytes. The mutable handle is
    /// consumed, so no two views of these bytes are ever alive at once.
    pub fn into_immutable(self) -> (r: CFData)
        requires
            self.wf(),
        ensures
            r@ == self@,
    {
        let CFMutableData { contents, maximum_capacity: _ } = self;
        CFData { contents }
    }
}

impl core::ops::Deref for CFMutableData {
    type Target = [u8];

    fn deref(&self) -> (r: &[u8])
        ensures
            r@ == self@,
    {
        self.bytes()
    }
}

impl core::ops::DerefMut for CFMutableData {
    fn deref_mut(&mut self) -> (r: &mut [u8])
        ensures
            r@ == old(self)@,
            final(self)@ == final(r)@,
    {
        self.bytes_mut()
    }
}

/// Appending `b1` and then `b2` to an empty buffer leaves exactly `b1 ++ b2`,
/// of length `b1.len() + b2.len()`.
pub proof fn lemma_extend_twice(b1: Seq<u8>, b2: Seq<u8>)
    ensures
        (Seq::<u8>::empty() + b1) + b2 == b1 + b2,
        ((Seq::<u8>::empty() + b1) + b2).len() == b1.len() + b2.len(),
{
    assert(Seq::<u8>::empty() + b1 =~= b1);
}

/// Resizing to a shorter length keeps exactly the first `n` bytes; to a longer
/// one, keeps the contents and adds `n - len` zero bytes after them; to the
/// same length, changes nothing.
pub proof fn lemma_resized(s: Seq<u8>, n: nat)
    ensures
        resized(s, n).len() == n,
        n < s.len() ==> resized(s, n) == s.subrange(0, n as int),
        n > s.len() ==> resized(s, n).subrange(0, s.len() as int) == s,
        n > s.len() ==> forall|i: int| s.len() <= i < n ==> #[trigger] resized(s, n)[i] == 0u8,
        n == s.len() ==> resized(s, n) == s,
{
    if n > s.len() {
        assert(resized(s, n).subrange(0, s.len() as int) =~= s);
    }
    if n == s.len() {
        assert(resized(s, n) =~= s);
    }
}

/// A buffer made with a nonzero maximum capacity `n` may grow to any length up
/// to exactly `n`, and to no length beyond it.
pub proof fn lemma_capacity_bound(d: CFMutableData, len: nat)
    requires
        d.wf(),
        d.capacity() > 0,
    ensures
        d.admits_len(len) <==> len <= d.capacity(),
{
    assert(d.capacity() <= max_len());
}

} // verus!
