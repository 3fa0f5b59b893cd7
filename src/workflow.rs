//! What every workflow kind shares: the error taxonomy and the length of
//! free-text fields.

use vstd::prelude::*;
use vstd::string::StringSliceAdditionalSpecFns;
use vstd::utf8::encode_utf8;

verus! {

/// The class of a refusal. Every error of every workflow kind belongs to
/// exactly one class; none of them leaves a partial effect.
#[derive(Clone, Copy, Debug, PartialEq, Eq)]
pub enum ErrorKind {
    /// An input out of bounds (amount, text length, outcome).
    Validation,
    /// The transition is not defined for the current status.
    StateConflict,
    /// The caller does not hold the role the transition asks for.
    Authorization,
    /// A deadline or a sale window does not allow the transition now.
    Timing,
    /// A fee, payout or counter computation overflowed.
    Arithmetic,
    /// The ledger refused the transfers.
    TransferFailure,
}

/// The length in bytes of a text field, as `str::len` reports it.
pub open spec fn text_len(s: Seq<char>) -> usize {
    encode_utf8(s).len() as usize
}

pub fn byte_len(s: &String) -> (r: usize)
    ensures
        r == text_len(s@),
{
    let t = s.as_str();
    proof {
        assert(t.spec_bytes() == encode_utf8(t@));
    }
    t.len()
}

} // verus!
