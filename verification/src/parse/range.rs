//! Byte ranges into the parsed source text.

use vstd::prelude::*;

verus! {

/// A range of byte offsets `start..end` into a source text, with
/// `start <= end`.
#[derive(Debug, Clone, Copy, PartialEq, Eq)]
pub struct TextRange {
    start: u32,
    end: u32,
}

impl TextRange {
    #[verifier::type_invariant]
    spec fn ordered(self) -> bool {
        self.start <= self.end
    }

    /// The first byte offset of the range.
    pub closed spec fn start_spec(self) -> u32 {
        self.start
    }

    /// The byte offset just past the range.
    pub closed spec fn end_spec(self) -> u32 {
        self.end
    }

    /// The range `start..end`.
    pub fn new(start: u32, end: u32) -> (r: TextRange)
        requires
            start <= end,
        ensures
            r.start_spec() == start,
            r.end_spec() == end,
    {
        TextRange { start, end }
    }

    /// The range `0..len`.
    pub fn up_to(len: u32) -> (r: TextRange)
        ensures
            r.start_spec() == 0,
            r.end_spec() == len,
    {
        TextRange { start: 0, end: len }
    }

    /// The empty range at offset zero.
    pub fn empty() -> (r: TextRange)
        ensures
            r.start_spec() == 0,
            r.end_spec() == 0,
    {
        TextRange { start: 0, end: 0 }
    }

    pub fn start(&self) -> (s: u32)
        ensures
            s == self.start_spec(),
    {
        self.start
    }

    pub fn end(&self) -> (e: u32)
        ensures
            e == self.end_spec(),
            self.start_spec() <= e,
    {
        proof {
            use_type_invariant(self);
        }
        self.end
    }

    /// The number of bytes in the range.
    pub fn len(&self) -> (n: u32)
        ensures
            n == self.end_spec() - self.start_spec(),
    {
        proof {
            use_type_invariant(self);
        }
        self.end - self.start
    }
}

} // verus!
