use crate::route::{CreateError, Route};
use crate::route_id::{generate_route_id, valid_route_id};
use crate::store::{has_id, ids_unique, InsertAnswer, LookupAnswer, RouteStore};
use crate::validate::{creation_verdict, parsed_scheme, validate_creation};
use vstd::prelude::*;

verus! {

/// Most identifiers drawn for one creation request.
pub const MAX_ATTEMPTS: u32 = 64;

/// The admission verdict on a creation request: a client over its quota is
/// turned away before anything else is looked at; otherwise the request is
/// validated.
pub open spec fn admission(
    allowed: bool,
    len: nat,
    scheme: Option<Seq<char>>,
    expires: int,
    now: int,
) -> Result<(), CreateError> {
    if !allowed {
        Err(CreateError::RateLimited)
    } else {
        match creation_verdict(len, scheme, expires, now) {
            Ok(()) => Ok(()),
            Err(e) => Err(CreateError::Invalid(e)),
        }
    }
}

/// Decides whether a creation request may go on to allocation. `allowed` is
/// the rate limiter's answer for the client.
pub fn admit_creation(allowed: bool, destination: &str, expires: i64, now: i64) -> (r: Result<
    (),
    CreateError,
>)
    ensures
        r == admission(
            allowed,
            destination@.len(),
            parsed_scheme(destination@),
            expires as int,
            now as int,
        ),
{
    if !allowed {
        return Err(CreateError::RateLimited);
    }
    match validate_creation(destination, expires, now) {
        Ok(()) => Ok(()),
        Err(e) => Err(CreateError::Invalid(e)),
    }
}

/// What the allocator asks for next.
#[derive(Debug, PartialEq, Eq)]
pub enum CreateStep {
    /// Ask the store whether the current candidate identifier is taken.
    Lookup,
    /// Insert the route that `Allocation::pending_route` gives.
    Insert,
    /// Allocation is over, with this outcome.
    Done(Result<Route, CreateError>),
}

/// An allocation in progress: a validated destination and expiry, the
/// identifier currently tried, and how many identifiers have been drawn.
#[derive(Debug)]
pub struct Allocation {
    pub destination: String,
    pub expires: i64,
    pub candidate: String,
    pub attempts: u32,
}

impl Allocation {
    /// At least one and at most `MAX_ATTEMPTS` identifiers drawn; the current
    /// one is well shaped.
    pub open spec fn wf(&self) -> bool {
        &&& 1 <= self.attempts <= MAX_ATTEMPTS
        &&& valid_route_id(self.candidate@)
    }

    /// The route this allocation would store under its current candidate.
    pub open spec fn pending(&self) -> Route {
        Route { id: self.candidate, destination: self.destination, expires: self.expires }
    }

    /// `next` follows `prev` after the candidate was found taken (or the
    /// store failed to answer), and `step` is what is asked next: a fresh
    /// draw while attempts remain, else the end with `AllocationExhausted`.
    pub open spec fn retried(prev: Allocation, next: Allocation, step: CreateStep) -> bool {
        if prev.attempts < MAX_ATTEMPTS {
            &&& next.attempts == prev.attempts + 1
            &&& next.destination == prev.destination
            &&& next.expires == prev.expires
            &&& step == CreateStep::Lookup
        } else {
            &&& next == prev
            &&& step == CreateStep::Done(Err(CreateError::AllocationExhausted))
        }
    }

    /// Starts allocating a route for an admitted request by drawing a first
    /// identifier. The first step is a `Lookup`.
    pub fn new(destination: String, expires: i64) -> (r: Allocation)
        ensures
            r.wf(),
            r.destination == destination,
            r.expires == expires,
            r.attempts == 1,
    {
        Allocation { destination, expires, candidate: generate_route_id(), attempts: 1 }
    }

    /// The route to insert under the current candidate.
    pub fn pending_route(&self) -> (r: Route)
        ensures
            r == self.pending(),
    {
        Route {
            id: self.candidate.clone(),
            destination: self.destination.clone(),
            expires: self.expires,
        }
    }

    fn retry(&mut self) -> (r: CreateStep)
        requires
            old(self).wf(),
        ensures
            final(self).wf(),
            Self::retried(*old(self), *final(self), r),
    {
        if self.attempts < MAX_ATTEMPTS {
            self.candidate = generate_route_id();
            self.attempts = self.attempts + 1;
            CreateStep::Lookup
        } else {
            CreateStep::Done(Err(CreateError::AllocationExhausted))
        }
    }

    /// Takes the store's answer to whether the candidate is taken. A free
    /// candidate goes on to `Insert`; a taken one, or a failed lookup, costs
    /// an attempt.
    pub fn on_lookup(&mut self, answer: LookupAnswer) -> (r: CreateStep)
        requires
            old(self).wf(),
        ensures
            final(self).wf(),
            answer == LookupAnswer::Absent ==> r == CreateStep::Insert && *final(self) == *old(
                self,
            ),
            answer != LookupAnswer::Absent ==> Self::retried(*old(self), *final(self), r),
    {
        match answer {
            LookupAnswer::Absent => CreateStep::Insert,
            _ => self.retry(),
        }
    }

    /// Takes the store's answer to the insert of `self.pending_route()`. Success ends
    /// with that route; a duplicate found only at insert time costs an
    /// attempt; a store failure ends with `StoreUnavailable`.
    pub fn on_insert(&mut self, answer: InsertAnswer) -> (r: CreateStep)
        requires
            old(self).wf(),
        ensures
            final(self).wf(),
            answer == InsertAnswer::Inserted ==> r == CreateStep::Done(Ok(old(self).pending()))
                && *final(self) == *old(self),
            answer == InsertAnswer::Duplicate ==> Self::retried(*old(self), *final(self), r),
            answer == InsertAnswer::Failed ==> r == CreateStep::Done(
                Err(CreateError::StoreUnavailable),
            ) && *final(self) == *old(self),
    {
        match answer {
            InsertAnswer::Inserted => CreateStep::Done(Ok(self.pending_route())),
            InsertAnswer::Duplicate => self.retry(),
            InsertAnswer::Failed => CreateStep::Done(Err(CreateError::StoreUnavailable)),
        }
    }
}

/// No route of `s` is stored under an identifier of the shape that
/// allocation draws, so no draw can collide with one.
pub open spec fn no_route_id_taken(s: Seq<Route>) -> bool {
    forall|i: int| 0 <= i < s.len() ==> !valid_route_id(#[trigger] s[i].id@)
}

/// Handles a creation request against `store`: admission (rate limit, then
/// validation), then up to `MAX_ATTEMPTS` draws of an identifier, each looked
/// up and, when free, inserted. `allowed` is the rate limiter's answer.
/// An admitted request succeeds whenever no stored route holds an identifier
/// that a draw could give (an empty store, for one); otherwise every draw may
/// collide, and the request may end with `AllocationExhausted`.
pub fn create_route(
    store: &mut RouteStore,
    allowed: bool,
    destination: String,
    expires: i64,
    now: i64,
) -> (r: Result<Route, CreateError>)
    requires
        old(store).wf(),
    ensures
        final(store).wf(),
        admission(allowed, destination@.len(), parsed_scheme(destination@), expires as int, now as int)
            is Err ==> r == Err::<Route, CreateError>(
            admission(
                allowed,
                destination@.len(),
                parsed_scheme(destination@),
                expires as int,
                now as int,
            )->Err_0,
        ) && final(store)@ == old(store)@,
        admission(allowed, destination@.len(), parsed_scheme(destination@), expires as int, now as int)
            is Ok ==> match r {
            Ok(route) => {
                &&& valid_route_id(route.id@)
                &&& route.destination == destination
                &&& route.expires == expires
                &&& !has_id(old(store)@, route.id@)
                &&& final(store)@ == old(store)@.push(route)
            },
            Err(e) => e == CreateError::AllocationExhausted && final(store)@ == old(store)@,
        },
        admission(allowed, destination@.len(), parsed_scheme(destination@), expires as int, now as int)
            is Ok && no_route_id_taken(old(store)@) ==> r is Ok,
{
    match admit_creation(allowed, destination.as_str(), expires, now) {
        Err(e) => {
            return Err(e);
        },
        Ok(()) => {},
    }
    let ghost dest = destination;
    let mut alloc = Allocation::new(destination, expires);
    loop
        invariant
            alloc.wf(),
            alloc.destination == dest,
            dest == destination,
            alloc.expires == expires,
            store.wf(),
            *store == *old(store),
            admission(allowed, dest@.len(), parsed_scheme(dest@), expires as int, now as int) is Ok,
            no_route_id_taken(old(store)@) ==> !has_id(store@, alloc.candidate@),
        decreases MAX_ATTEMPTS - alloc.attempts,
    {
        let answer = store.contains(alloc.candidate.as_str());
        match alloc.on_lookup(answer) {
            CreateStep::Done(r) => {
                return r;
            },
            CreateStep::Lookup => {},
            CreateStep::Insert => {
                let route = alloc.pending_route();
                let inserted = store.insert(route);
                match alloc.on_insert(inserted) {
                    CreateStep::Done(r) => {
                        return r;
                    },
                    CreateStep::Lookup => {},
                    CreateStep::Insert => {},
                }
            },
        }
    }
}

} // verus!
