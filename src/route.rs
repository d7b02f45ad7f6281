use crate::validate::ValidationError;
use vstd::prelude::*;

verus! {

/// A stored route: a short identifier bound to a destination until `expires`
/// (a Unix timestamp in seconds).
#[derive(Debug, Clone, PartialEq, Eq)]
pub struct Route {
    pub id: String,
    pub destination: String,
    pub expires: i64,
}

impl Route {
    /// A copy of this route.
    pub fn duplicate(&self) -> (r: Route)
        ensures
            r == *self,
    {
        Route { id: self.id.clone(), destination: self.destination.clone(), expires: self.expires }
    }
}

/// Why a creation request failed.
#[derive(Debug, Clone, Copy, PartialEq, Eq, Structural)]
pub enum CreateError {
    /// The client has used up its creation quota.
    RateLimited,
    /// The request did not pass validation.
    Invalid(ValidationError),
    /// Every allowed attempt to find a free identifier failed.
    AllocationExhausted,
    /// The store failed while writing the route.
    StoreUnavailable,
}

/// Why an identifier resolved to nothing.
#[derive(Debug, Clone, Copy, PartialEq, Eq, Structural)]
pub enum NotFoundReason {
    /// The identifier does not have the shape of one.
    InvalidShape,
    /// No route is stored under it.
    DoesNotExist,
    /// Its route had expired, and has been removed.
    Expired,
}

} // verus!
