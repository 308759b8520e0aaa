use vstd::prelude::*;

use crate::errors::NotifyError;

verus! {

/// Boundary code that selects [`Timeout::ServerDefault`].
pub const TIMEOUT_DEFAULT: i32 = -1;

/// Boundary code that selects [`Timeout::Never`].
pub const TIMEOUT_NEVER: i32 = -2;

/// Lifetime of a notification on screen, as a tagged value.
///
/// At the boundary it is encoded as an integer: `-1` for the server default,
/// `-2` for never, and any non-negative value for that many milliseconds.
/// Every other negative value is invalid.
#[derive(Debug, Clone, Copy, PartialEq, Eq, Structural)]
pub enum Timeout {
    /// Expire according to the notification server's default, whatever that
    /// might be.
    ServerDefault,
    /// Do not expire; the user has to close the notification.
    Never,
    /// Expire after the given number of milliseconds; never negative in a
    /// stored draft.
    Milliseconds(i32),
}

/// Which integers are valid boundary encodings of a timeout.
pub open spec fn timeout_code_ok(v: int) -> bool {
    v == TIMEOUT_DEFAULT || v == TIMEOUT_NEVER || v >= 0
}

/// The timeout a valid boundary code denotes. The sentinel check takes
/// precedence over the general non-negative case.
pub open spec fn timeout_of_code(v: int) -> Timeout {
    if v == TIMEOUT_DEFAULT {
        Timeout::ServerDefault
    } else if v == TIMEOUT_NEVER {
        Timeout::Never
    } else {
        Timeout::Milliseconds(v as i32)
    }
}

/// The boundary code that encodes a timeout.
pub open spec fn timeout_code(t: Timeout) -> int {
    match t {
        Timeout::ServerDefault => TIMEOUT_DEFAULT as int,
        Timeout::Never => TIMEOUT_NEVER as int,
        Timeout::Milliseconds(n) => n as int,
    }
}

/// A well-formed timeout never carries a negative millisecond count.
pub open spec fn timeout_wf(t: Timeout) -> bool {
    t matches Timeout::Milliseconds(n) ==> n >= 0
}

/// Decode a boundary integer into a timeout.
///
/// Maps `-1` to the server default, `-2` to never, and any non-negative value
/// to that many milliseconds; every other value is rejected as invalid.
pub fn decode_timeout(v: i32) -> (r: Result<Timeout, NotifyError>)
    ensures
        timeout_code_ok(v as int) ==> r == Ok::<Timeout, NotifyError>(timeout_of_code(v as int)),
        !timeout_code_ok(v as int) ==> r == Err::<Timeout, NotifyError>(
            NotifyError::InvalidArgument(v),
        ),
        r matches Ok(t) ==> timeout_wf(t),
{
    if v == TIMEOUT_DEFAULT {
        Ok(Timeout::ServerDefault)
    } else if v == TIMEOUT_NEVER {
        Ok(Timeout::Never)
    } else if v >= 0 {
        Ok(Timeout::Milliseconds(v))
    } else {
        Err(NotifyError::InvalidArgument(v))
    }
}

/// Encode a timeout back into its boundary integer.
pub fn encode_timeout(t: &Timeout) -> (r: i32)
    ensures
        r as int == timeout_code(*t),
{
    match t {
        Timeout::ServerDefault => TIMEOUT_DEFAULT,
        Timeout::Never => TIMEOUT_NEVER,
        Timeout::Milliseconds(n) => *n,
    }
}

/// Reading back a timeout that was set from a valid boundary code yields that
/// code again: the encode/decode pair is symmetric on valid codes.
pub proof fn lemma_timeout_code_round_trip(v: i32)
    requires
        timeout_code_ok(v as int),
    ensures
        timeout_code(timeout_of_code(v as int)) == v as int,
{
}

/// Encoding a well-formed timeout gives a valid boundary code, and decoding
/// that code yields the timeout back.
pub proof fn lemma_timeout_decode_encode(t: Timeout)
    requires
        timeout_wf(t),
    ensures
        timeout_code_ok(timeout_code(t)),
        timeout_of_code(timeout_code(t)) == t,
{
}

} // verus!
