use crate::route::{NotFoundReason, Route};
use crate::route_id::{is_valid_route_id, valid_route_id};
use crate::store::{lookup, RouteStore};
use vstd::prelude::*;

verus! {

/// What a stored record resolves to at time `now`: its destination while
/// `now` has not passed its expiry, else `Expired`; no record is
/// `DoesNotExist`.
pub open spec fn resolution_of(record: Option<Route>, now: int) -> Result<String, NotFoundReason> {
    match record {
        None => Err(NotFoundReason::DoesNotExist),
        Some(route) => if now > route.expires {
            Err(NotFoundReason::Expired)
        } else {
            Ok(route.destination)
        },
    }
}

/// What identifier `id` resolves to at time `now` against the routes `s`: a
/// malformed identifier is `InvalidShape` whatever the store holds.
pub open spec fn resolve_outcome(s: Seq<Route>, id: Seq<char>, now: int) -> Result<
    String,
    NotFoundReason,
> {
    if !valid_route_id(id) {
        Err(NotFoundReason::InvalidShape)
    } else {
        resolution_of(lookup(s, id), now)
    }
}

/// Decides what the record found for an identifier resolves to at `now`.
/// On `Expired` the caller deletes the record; the answer stays `Expired`
/// whether or not that delete succeeds.
pub fn resolve_record(record: Option<Route>, now: i64) -> (r: Result<String, NotFoundReason>)
    ensures
        r == resolution_of(record, now as int),
{
    match record {
        None => Err(NotFoundReason::DoesNotExist),
        Some(route) => {
            if now > route.expires {
                Err(NotFoundReason::Expired)
            } else {
                Ok(route.destination)
            }
        },
    }
}

/// Resolves `route_id` against `store` at `now`. A malformed identifier is
/// turned away without a lookup; an expired route is deleted on the way.
pub fn resolve(store: &mut RouteStore, route_id: &str, now: i64) -> (r: Result<
    String,
    NotFoundReason,
>)
    requires
        old(store).wf(),
    ensures
        final(store).wf(),
        r == resolve_outcome(old(store)@, route_id@, now as int),
        r == Err::<String, NotFoundReason>(NotFoundReason::Expired) ==> {
            &&& lookup(final(store)@, route_id@) is None
            &&& forall|other: Seq<char>|
                other != route_id@ ==> #[trigger] lookup(final(store)@, other) == lookup(
                    old(store)@,
                    other,
                )
        },
        r != Err::<String, NotFoundReason>(NotFoundReason::Expired) ==> final(store)@ == old(
            store,
        )@,
{
    if !is_valid_route_id(route_id) {
        return Err(NotFoundReason::InvalidShape);
    }
    let r = resolve_record(store.get(route_id), now);
    match r {
        Err(NotFoundReason::Expired) => {
            store.remove(route_id);
        },
        _ => {},
    }
    r
}

} // verus!
