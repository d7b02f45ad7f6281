use crate::allocator::{admission, admit_creation};
use crate::route::CreateError;
use crate::validate::parsed_scheme;
use governor::{DefaultKeyedRateLimiter, Quota, RateLimiter};
use std::num::NonZeroU32;
use vstd::prelude::*;

verus! {

/// Creation requests a client may make per minute.
pub const CREATIONS_PER_MINUTE: u32 = 1;

/// Per-client admission control on creation requests, keyed by the client's
/// address as a 128-bit number (IPv4 addresses in their IPv6-mapped form).
/// It holds governor's keyed GCRA limiter, which keeps one quota per key and
/// is safe to share between concurrent requests. Its answers depend on the
/// clock, so nothing is promised of them.
#[verifier::external_body]
pub struct ClientLimiter {
    limiter: DefaultKeyedRateLimiter<u128>,
}

/// Relies on governor's `RateLimiter::keyed` with `Quota::per_minute`: a
/// limiter with a quota of `per_minute` cells per minute for each key.
#[verifier::external_body]
fn keyed_per_minute(per_minute: u32) -> (r: ClientLimiter)
    requires
        per_minute >= 1,
{
    ClientLimiter {
        limiter: RateLimiter::keyed(Quota::per_minute(NonZeroU32::new(per_minute).unwrap())),
    }
}

/// Relies on governor's `RateLimiter::check_key`: `true` when a cell of
/// `client`'s quota was free and has now been taken.
#[verifier::external_body]
fn check_key(limiter: &ClientLimiter, client: u128) -> (r: bool) {
    limiter.limiter.check_key(&client).is_ok()
}

impl ClientLimiter {
    /// A limiter granting each client `CREATIONS_PER_MINUTE` creations per
    /// minute.
    pub fn new() -> (r: ClientLimiter) {
        keyed_per_minute(CREATIONS_PER_MINUTE)
    }
}

/// Admits or refuses a creation request from `client`. The limiter is asked
/// first and a refusal is `RateLimited`; otherwise the request is validated.
/// Whatever the limiter answers, the outcome is one of those two.
pub fn admit_request(
    limiter: &ClientLimiter,
    client: u128,
    destination: &str,
    expires: i64,
    now: i64,
) -> (r: Result<(), CreateError>)
    ensures
        r == Err::<(), CreateError>(CreateError::RateLimited) || r == admission(
            true,
            destination@.len(),
            parsed_scheme(destination@),
            expires as int,
            now as int,
        ),
{
    let allowed = check_key(limiter, client);
    admit_creation(allowed, destination, expires, now)
}

} // verus!
