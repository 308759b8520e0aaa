use vstd::prelude::*;

use crate::errors::NotifyError;

verus! {

/// Boundary code that selects [`Urgency::Low`].
pub const URGENCY_LOW: i32 = 0;

/// Boundary code that selects [`Urgency::Normal`].
pub const URGENCY_NORMAL: i32 = 1;

/// Boundary code that selects [`Urgency::Critical`].
pub const URGENCY_CRITICAL: i32 = 2;

/// Urgency level of a notification.
///
/// At the boundary it is encoded as an integer: `0` for low, `1` for normal
/// and `2` for critical. Every other value is invalid.
#[derive(Debug, Clone, Copy, PartialEq, Eq, Structural)]
pub enum Urgency {
    /// The server decides how to display a low-urgency notification.
    Low,
    /// The server decides how to display a normal-urgency notification.
    Normal,
    /// A critical notification is not meant to time out.
    Critical,
}

/// Which integers are valid boundary encodings of an urgency.
pub open spec fn urgency_code_ok(v: int) -> bool {
    v == URGENCY_LOW || v == URGENCY_NORMAL || v == URGENCY_CRITICAL
}

/// The urgency a valid boundary code denotes.
pub open spec fn urgency_of_code(v: int) -> Urgency {
    if v == URGENCY_LOW {
        Urgency::Low
    } else if v == URGENCY_NORMAL {
        Urgency::Normal
    } else {
        Urgency::Critical
    }
}

/// The boundary code that encodes an urgency.
pub open spec fn urgency_code(u: Urgency) -> int {
    match u {
        Urgency::Low => URGENCY_LOW as int,
        Urgency::Normal => URGENCY_NORMAL as int,
        Urgency::Critical => URGENCY_CRITICAL as int,
    }
}

/// Decode a boundary integer into an urgency.
///
/// Maps `0` to low, `1` to normal and `2` to critical; every other value is
/// rejected as invalid.
pub fn decode_urgency(v: i32) -> (r: Result<Urgency, NotifyError>)
    ensures
        urgency_code_ok(v as int) ==> r == Ok::<Urgency, NotifyError>(urgency_of_code(v as int)),
        !urgency_code_ok(v as int) ==> r == Err::<Urgency, NotifyError>(
            NotifyError::InvalidArgument(v),
        ),
{
    if v == URGENCY_LOW {
        Ok(Urgency::Low)
    } else if v == URGENCY_NORMAL {
        Ok(Urgency::Normal)
    } else if v == URGENCY_CRITICAL {
        Ok(Urgency::Critical)
    } else {
        Err(NotifyError::InvalidArgument(v))
    }
}

/// Encode an urgency back into its boundary integer.
pub fn encode_urgency(u: &Urgency) -> (r: i32)
    ensures
        r as int == urgency_code(*u),
{
    match u {
        Urgency::Low => URGENCY_LOW,
        Urgency::Normal => URGENCY_NORMAL,
        Urgency::Critical => URGENCY_CRITICAL,
    }
}

/// Reading back an urgency that was set from a valid boundary code yields
/// that code again: the encode/decode pair is symmetric on valid codes.
pub proof fn lemma_urgency_code_round_trip(v: i32)
    requires
        urgency_code_ok(v as int),
    ensures
        urgency_code(urgency_of_code(v as int)) == v as int,
{
}

/// Encoding any urgency gives a valid boundary code, and decoding that code
/// yields the urgency back.
pub proof fn lemma_urgency_decode_encode(u: Urgency)
    ensures
        urgency_code_ok(urgency_code(u)),
        urgency_of_code(urgency_code(u)) == u,
{
}

} // verus!
