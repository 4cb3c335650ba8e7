use vstd::prelude::*;

verus! {

/// Strength of the night-light filter. On the wire each level is a code:
/// `Soft` is 1, `Warm` is 2 and `Strong` is 3; levels are ordered by code.
#[derive(Clone, Copy, Debug, PartialEq, Eq, Structural, PartialOrd, Ord, Hash)]
pub enum Intensity {
    Soft,
    Warm,
    Strong,
}

/// The wire code of a level.
pub open spec fn code_of(lv: Intensity) -> u8 {
    match lv {
        Intensity::Soft => 1,
        Intensity::Warm => 2,
        Intensity::Strong => 3,
    }
}

/// The level that a wire code stands for, if any.
pub open spec fn level_of(code: u8) -> Option<Intensity> {
    if code == 1 {
        Some(Intensity::Soft)
    } else if code == 2 {
        Some(Intensity::Warm)
    } else if code == 3 {
        Some(Intensity::Strong)
    } else {
        None
    }
}

impl Intensity {
    /// The wire code of this level, from 1 to 3.
    pub fn code(&self) -> (r: u8)
        ensures
            r == code_of(*self),
            1 <= r <= 3,
    {
        match self {
            Intensity::Soft => 1,
            Intensity::Warm => 2,
            Intensity::Strong => 3,
        }
    }

    /// The level for a wire code; `None` for any code outside 1 to 3.
    pub fn from_code(code: u8) -> (r: Option<Intensity>)
        ensures
            r == level_of(code),
            r is Some <==> 1 <= code <= 3,
            r matches Some(lv) ==> code_of(lv) == code,
    {
        if code == 1 {
            Some(Intensity::Soft)
        } else if code == 2 {
            Some(Intensity::Warm)
        } else if code == 3 {
            Some(Intensity::Strong)
        } else {
            None
        }
    }
}

/// Decoding a level's code gives the level back.
pub proof fn lemma_code_round_trip(lv: Intensity)
    ensures
        level_of(code_of(lv)) == Some(lv),
{
}

} // verus!
