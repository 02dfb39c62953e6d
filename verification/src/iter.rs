//! Enumeration over the full palette and over each sub-palette's contiguous
//! range of codes, in ascending order.

use crate::colour::Colour;
use vstd::prelude::*;

verus! {

/// A single-pass producer of the colours whose codes lie in a half-open
/// range; restart by building a fresh one from its producer.
pub struct ColourIter {
    next_code: u16,
    end_code: u16,
}

impl ColourIter {
    /// Invariant: the range stays inside the byte space.
    #[verifier::type_invariant]
    pub closed spec fn spec_wf(self) -> bool {
        self.next_code <= self.end_code && self.end_code <= 256
    }

    /// Code of the next colour to be yielded.
    pub closed spec fn spec_next_code(self) -> int {
        self.next_code as int
    }

    /// One past the code of the last colour to be yielded.
    pub closed spec fn spec_end_code(self) -> int {
        self.end_code as int
    }

    /// The codes still to be yielded, in ascending order.
    pub open spec fn spec_remaining(self) -> Seq<u8> {
        Seq::new(
            (self.spec_end_code() - self.spec_next_code()) as nat,
            |i: int| (self.spec_next_code() + i) as u8,
        )
    }

    /// Yields the colour at the next code, until the range is exhausted.
    pub fn next(&mut self) -> (r: Option<Colour>)
        ensures
            old(self).spec_next_code() < old(self).spec_end_code() ==> (r matches Some(c)
                && c@ == old(self).spec_next_code() as u8
                && final(self).spec_next_code() == old(self).spec_next_code() + 1
                && final(self).spec_end_code() == old(self).spec_end_code()),
            old(self).spec_next_code() >= old(self).spec_end_code() ==> (r is None && *final(self)
                == *old(self)),
    {
        proof {
            use_type_invariant(&*self);
        }
        if self.next_code < self.end_code {
            let c = Colour::from_code(self.next_code as u8);
            self.next_code = self.next_code + 1;
            Some(c)
        } else {
            None
        }
    }
}

/// What remains to be yielded is ascending and gap-free: the i-th code is
/// the first plus i, so all yielded codes are distinct.
pub proof fn lemma_remaining_ascending(it: ColourIter)
    requires
        it.spec_wf(),
    ensures
        forall|i: int|
            0 <= i < it.spec_remaining().len() ==> #[trigger] it.spec_remaining()[i]
                == it.spec_next_code() + i,
        forall|i: int, j: int|
            0 <= i < j < it.spec_remaining().len() ==> #[trigger] it.spec_remaining()[i]
                < #[trigger] it.spec_remaining()[j],
{
}

/// Produces every colour of the palette, codes 0-255.
pub struct AllColours;

impl AllColours {
    pub fn into_iter(self) -> (it: ColourIter)
        ensures
            it.spec_next_code() == 0,
            it.spec_end_code() == 256,
    {
        ColourIter { next_code: 0, end_code: 256 }
    }
}

/// Produces the normal sub-palette, codes 0-7.
pub struct NormalColours;

impl NormalColours {
    pub fn into_iter(self) -> (it: ColourIter)
        ensures
            it.spec_next_code() == 0,
            it.spec_end_code() == 8,
    {
        ColourIter { next_code: 0, end_code: 8 }
    }
}

/// Produces the bright sub-palette, codes 8-15.
pub struct BrightColours;

impl BrightColours {
    pub fn into_iter(self) -> (it: ColourIter)
        ensures
            it.spec_next_code() == 8,
            it.spec_end_code() == 16,
    {
        ColourIter { next_code: 8, end_code: 16 }
    }
}

/// Produces the RGB cube sub-palette, codes 16-231.
pub struct RgbColours;

impl RgbColours {
    pub fn into_iter(self) -> (it: ColourIter)
        ensures
            it.spec_next_code() == 16,
            it.spec_end_code() == 232,
    {
        ColourIter { next_code: 16, end_code: 232 }
    }
}

/// Produces the greyscale sub-palette, codes 232-255.
pub struct GreyScaleColours;

impl GreyScaleColours {
    pub fn into_iter(self) -> (it: ColourIter)
        ensures
            it.spec_next_code() == 232,
            it.spec_end_code() == 256,
    {
        ColourIter { next_code: 232, end_code: 256 }
    }
}

} // verus!
