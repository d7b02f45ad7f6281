//! Properties that tie creation, the store and resolution together.
use crate::allocator::admission;
use crate::resolver::resolve_outcome;
use crate::route::{CreateError, NotFoundReason, Route};
use crate::route_id::valid_route_id;
use crate::store::{has_id, ids_unique, lemma_lookup_push, lookup};
use crate::validate::{is_web_scheme, parsed_scheme, ValidationError, MAX_URL_LENGTH};
use vstd::prelude::*;

verus! {

/// A route that creation stores (well-shaped fresh identifier, admitted
/// destination and expiry) resolves at once to the submitted destination.
pub proof fn lemma_created_route_resolves(s: Seq<Route>, route: Route, now: int)
    requires
        ids_unique(s),
        !has_id(s, route.id@),
        valid_route_id(route.id@),
        admission(
            true,
            route.destination@.len(),
            parsed_scheme(route.destination@),
            route.expires as int,
            now,
        ) is Ok,
    ensures
        resolve_outcome(s.push(route), route.id@, now) == Ok::<String, NotFoundReason>(
            route.destination,
        ),
{
    lemma_lookup_push(s, route, route.id@);
}

/// A destination longer than `MAX_URL_LENGTH` characters is refused with
/// `DestinationTooLong`, whatever its scheme and expiry.
pub proof fn lemma_long_destination_refused(
    len: nat,
    scheme: Option<Seq<char>>,
    expires: int,
    now: int,
)
    requires
        len > MAX_URL_LENGTH,
    ensures
        admission(true, len, scheme, expires, now) == Err::<(), CreateError>(
            CreateError::Invalid(ValidationError::DestinationTooLong),
        ),
{
}

/// An expiry at or before the current time is refused with `ExpiryInPast`
/// for a destination that passes the other checks.
pub proof fn lemma_past_expiry_refused(len: nat, scheme: Seq<char>, expires: int, now: int)
    requires
        expires <= now,
        len <= MAX_URL_LENGTH,
        is_web_scheme(scheme),
    ensures
        admission(true, len, Some(scheme), expires, now) == Err::<(), CreateError>(
            CreateError::Invalid(ValidationError::ExpiryInPast),
        ),
{
}

/// An insert into a store of unique identifiers, accepted or refused as a
/// duplicate, leaves the identifiers unique.
pub proof fn lemma_insert_keeps_ids_unique(s: Seq<Route>, route: Route)
    requires
        ids_unique(s),
    ensures
        ids_unique(
            if has_id(s, route.id@) {
                s
            } else {
                s.push(route)
            },
        ),
{
    if !has_id(s, route.id@) {
        lemma_lookup_push(s, route, route.id@);
    }
}

/// A route resolved after its expiry has passed is `Expired`; once removed,
/// its identifier resolves to `DoesNotExist` at any later time.
pub proof fn lemma_expired_route_stays_gone(
    s: Seq<Route>,
    after: Seq<Route>,
    route: Route,
    now: int,
    later: int,
)
    requires
        valid_route_id(route.id@),
        lookup(s, route.id@) == Some(route),
        now > route.expires,
        lookup(after, route.id@) is None,
    ensures
        resolve_outcome(s, route.id@, now) == Err::<String, NotFoundReason>(
            NotFoundReason::Expired,
        ),
        resolve_outcome(after, route.id@, later) == Err::<String, NotFoundReason>(
            NotFoundReason::DoesNotExist,
        ),
{
}

/// Resolving a malformed or unknown identifier gives the same `NotFound`
/// reason at any two times, and never `Expired`, so the store is left as it
/// was and every repeat gives that answer again.
pub proof fn lemma_rejection_is_stable(s: Seq<Route>, id: Seq<char>, t1: int, t2: int)
    requires
        !valid_route_id(id) || lookup(s, id) is None,
    ensures
        resolve_outcome(s, id, t1) == resolve_outcome(s, id, t2),
        resolve_outcome(s, id, t1) is Err,
        resolve_outcome(s, id, t1) != Err::<String, NotFoundReason>(NotFoundReason::Expired),
{
}

} // verus!
