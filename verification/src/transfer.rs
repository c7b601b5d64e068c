//! The status that the host answers when a mod asks for data of arbitrary length
//! that the host prepared for it, and the byte by which it crosses the boundary.
use vstd::prelude::*;

verus! {

/// How handing over prepared data ended.
#[derive(Debug, PartialEq, Eq, Structural, Clone, Copy)]
pub enum ReceiveArbitraryResult {
    /// The data was written into the mod's buffer.
    Sucess,
    /// The mod's buffer does not lie within its memory.
    GenericFailure,
    /// Nothing was prepared.
    NotPrepared,
}

impl ReceiveArbitraryResult {
    /// The byte that stands for the status: 0, 1 and 2 in declaration order.
    pub open spec fn code_of(self) -> u8 {
        match self {
            ReceiveArbitraryResult::Sucess => 0,
            ReceiveArbitraryResult::GenericFailure => 1,
            ReceiveArbitraryResult::NotPrepared => 2,
        }
    }

    /// The byte that stands for the status.
    pub fn code(&self) -> (c: u8)
        ensures
            c == self.code_of(),
    {
        match self {
            ReceiveArbitraryResult::Sucess => 0,
            ReceiveArbitraryResult::GenericFailure => 1,
            ReceiveArbitraryResult::NotPrepared => 2,
        }
    }

    /// The status that a byte stands for, if any.
    pub fn from_code(c: u8) -> (r: Option<ReceiveArbitraryResult>)
        ensures
            r is None <==> c > 2,
            r matches Some(s) ==> s.code_of() == c,
    {
        if c == 0 {
            Some(ReceiveArbitraryResult::Sucess)
        } else if c == 1 {
            Some(ReceiveArbitraryResult::GenericFailure)
        } else if c == 2 {
            Some(ReceiveArbitraryResult::NotPrepared)
        } else {
            None
        }
    }
}

/// The status of a hand-over, from whether data was prepared and whether the
/// mod's buffer can hold it.
pub open spec fn status_of(prepared: bool, fits: bool) -> ReceiveArbitraryResult {
    if !prepared {
        ReceiveArbitraryResult::NotPrepared
    } else if !fits {
        ReceiveArbitraryResult::GenericFailure
    } else {
        ReceiveArbitraryResult::Sucess
    }
}

/// The status of a hand-over: [`status_of`].
pub fn arbitrary_status(prepared: bool, fits: bool) -> (r: ReceiveArbitraryResult)
    ensures
        r == status_of(prepared, fits),
{
    if !prepared {
        ReceiveArbitraryResult::NotPrepared
    } else if !fits {
        ReceiveArbitraryResult::GenericFailure
    } else {
        ReceiveArbitraryResult::Sucess
    }
}

/// A status survives its trip through a byte, and a byte that stands for a
/// status is that status's byte.
pub proof fn law_code_round_trip(s: ReceiveArbitraryResult, c: u8)
    ensures
        s.code_of() <= 2,
        c <= 2 ==> exists|t: ReceiveArbitraryResult| t.code_of() == c,
        forall|t: ReceiveArbitraryResult| t.code_of() == s.code_of() ==> t == s,
{
    if c == 0 {
        assert(ReceiveArbitraryResult::Sucess.code_of() == c);
    } else if c == 1 {
        assert(ReceiveArbitraryResult::GenericFailure.code_of() == c);
    } else if c == 2 {
        assert(ReceiveArbitraryResult::NotPrepared.code_of() == c);
    }
}

} // verus!
