use vstd::prelude::*;
use crate::array_vec::ArrayVec;
use crate::error::CapacityError;

verus! {

/// The UTF-8 encoding of `c`: one byte below `0x80`, two below `0x800`,
/// three below `0x10000`, four above; the leading byte marks the length and
/// each following byte carries six bits under the prefix `0b10`.
pub open spec fn utf8_of(c: char) -> Seq<u8> {
    let n = c as u32;
    if n < 0x80 {
        seq![n as u8]
    } else if n < 0x800 {
        seq![(0xC0 | (n >> 6)) as u8, (0x80 | (n & 0x3F)) as u8]
    } else if n < 0x10000 {
        seq![
            (0xE0 | (n >> 12)) as u8,
            (0x80 | ((n >> 6) & 0x3F)) as u8,
            (0x80 | (n & 0x3F)) as u8,
        ]
    } else {
        seq![
            (0xF0 | (n >> 18)) as u8,
            (0x80 | ((n >> 12) & 0x3F)) as u8,
            (0x80 | ((n >> 6) & 0x3F)) as u8,
            (0x80 | (n & 0x3F)) as u8,
        ]
    }
}

/// The UTF-8 bytes of `c`.
fn utf8_bytes(c: char) -> (r: Vec<u8>)
    ensures
        r@ == utf8_of(c),
        1 <= r@.len() <= 4,
{
    let n = c as u32;
    if n < 0x80 {
        vec![n as u8]
    } else if n < 0x800 {
        vec![(0xC0 | (n >> 6)) as u8, (0x80 | (n & 0x3F)) as u8]
    } else if n < 0x10000 {
        vec![
            (0xE0 | (n >> 12)) as u8,
            (0x80 | ((n >> 6) & 0x3F)) as u8,
            (0x80 | (n & 0x3F)) as u8,
        ]
    } else {
        vec![
            (0xF0 | (n >> 18)) as u8,
            (0x80 | ((n >> 12) & 0x3F)) as u8,
            (0x80 | ((n >> 6) & 0x3F)) as u8,
            (0x80 | (n & 0x3F)) as u8,
        ]
    }
}

/// A string of at most `N` bytes of UTF-8, held in an `ArrayVec<u8, N>`.
pub struct ArrayString<const N: usize> {
    array: ArrayVec<u8, N>,
}

impl<const N: usize> View for ArrayString<N> {
    type V = Seq<u8>;

    /// The bytes held, in order.
    closed spec fn view(&self) -> Seq<u8> {
        self.array@
    }
}

impl<const N: usize> ArrayString<N> {
    /// A well-formed string holds at most `N` bytes.
    pub open spec fn wf(&self) -> bool {
        self@.len() <= N
    }

    /// An empty string.
    pub fn new() -> (r: Self)
        ensures
            r@ == Seq::<u8>::empty(),
    {
        ArrayString { array: ArrayVec::new() }
    }

    /// Whether no byte fits any more.
    pub fn is_full(&self) -> (r: bool)
        requires
            self.wf(),
        ensures
            r == (self@.len() == N),
    {
        self.array.is_full()
    }

    /// The number of bytes held.
    pub fn len(&self) -> (r: usize)
        requires
            self.wf(),
        ensures
            r == self@.len(),
    {
        self.array.len()
    }

    /// How many more bytes fit.
    pub fn remaining_capacity(&self) -> (r: usize)
        requires
            self.wf(),
        ensures
            r == N - self@.len(),
    {
        self.array.remaining_capacity()
    }

    /// The most bytes the string can hold: `N`.
    pub fn capacity(&self) -> (r: usize)
        ensures
            r == N,
    {
        self.array.capacity()
    }

    /// The bytes held.
    pub fn as_bytes(&self) -> (r: &[u8])
        ensures
            r@ == self@,
    {
        self.array.as_slice()
    }

    /// Appends the UTF-8 bytes of `c`, which must fit.
    pub fn push(&mut self, c: char)
        requires
            old(self)@.len() + utf8_of(c).len() <= N,
        ensures
            final(self)@ == old(self)@ + utf8_of(c),
    {
        let bytes = utf8_bytes(c);
        self.array.extend_from(bytes);
        proof {
            assert(crate::array_vec::prefix(utf8_of(c), N - old(self)@.len()) == utf8_of(c));
        }
    }

    /// Appends the UTF-8 bytes of `c` where they all fit. Where they do not,
    /// it returns `c` inside a `CapacityError` and leaves the string as it was.
    pub fn try_push(&mut self, c: char) -> (r: Result<(), CapacityError<char>>)
        requires
            old(self).wf(),
        ensures
            old(self)@.len() + utf8_of(c).len() <= N ==> r is Ok
                && final(self)@ == old(self)@ + utf8_of(c),
            old(self)@.len() + utf8_of(c).len() > N ==> r is Err
                && r->Err_0.spec_element() == c && final(self)@ == old(self)@,
    {
        let bytes = utf8_bytes(c);
        if self.array.remaining_capacity() < bytes.len() {
            return Err(CapacityError::new(c));
        }
        self.array.extend_from(bytes);
        proof {
            assert(crate::array_vec::prefix(utf8_of(c), N - old(self)@.len()) == utf8_of(c));
        }
        Ok(())
    }
}

impl<const N: usize> Default for ArrayString<N> {
    fn default() -> (r: Self)
        ensures
            r@ == Seq::<u8>::empty(),
    {
        Self::new()
    }
}

} // verus!
