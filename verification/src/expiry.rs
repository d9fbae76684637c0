use vstd::prelude::*;

verus! {

/// Milliseconds after which a notification that leaves its expiration to the server
/// (a timeout of -1) expires.
pub const DEFAULT_EXPIRE_TIMEOUT: u32 = 5000;

/// How long a notification with the requested `timeout` stays before it expires:
/// never for a timeout of zero, `timeout` milliseconds for a positive one, and
/// [`DEFAULT_EXPIRE_TIMEOUT`] for a negative one.
pub open spec fn expiry_delay_of(timeout: i32) -> Option<u32> {
    if timeout == 0 {
        None
    } else if timeout > 0 {
        Some(timeout as u32)
    } else {
        Some(DEFAULT_EXPIRE_TIMEOUT)
    }
}

/// The delay in milliseconds after which a notification with `timeout` expires, if it ever does.
pub fn expiry_delay(timeout: i32) -> (r: Option<u32>)
    ensures
        r == expiry_delay_of(timeout),
{
    if timeout == 0 {
        None
    } else if timeout > 0 {
        Some(timeout as u32)
    } else {
        Some(DEFAULT_EXPIRE_TIMEOUT)
    }
}

/// A notification with a positive requested timeout expires exactly that many milliseconds
/// later; one with a timeout of zero never expires; one with a negative timeout expires after
/// the server's default. So the delay never differs from a positive request.
pub proof fn lemma_expiry_follows_request(timeout: i32)
    ensures
        timeout > 0 ==> expiry_delay_of(timeout) is Some && expiry_delay_of(timeout)->0 == timeout,
        timeout == 0 ==> expiry_delay_of(timeout) is None,
        timeout < 0 ==> expiry_delay_of(timeout) == Some(DEFAULT_EXPIRE_TIMEOUT),
        expiry_delay_of(timeout) is Some ==> expiry_delay_of(timeout)->0 > 0,
{
}

} // verus!
