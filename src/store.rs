use crate::route::Route;
use vstd::prelude::*;

verus! {

/// No two routes of `s` share an identifier.
pub open spec fn ids_unique(s: Seq<Route>) -> bool {
    forall|i: int, j: int|
        0 <= i < s.len() && 0 <= j < s.len() && i != j ==> #[trigger] s[i].id@ != #[trigger] s[j].id@
}

/// Some route of `s` has identifier `id`.
pub open spec fn has_id(s: Seq<Route>, id: Seq<char>) -> bool {
    exists|i: int| 0 <= i < s.len() && #[trigger] s[i].id@ == id
}

/// The route of `s` stored under `id`, if any.
pub open spec fn lookup(s: Seq<Route>, id: Seq<char>) -> Option<Route> {
    if has_id(s, id) {
        Some(s[choose|i: int| 0 <= i < s.len() && #[trigger] s[i].id@ == id])
    } else {
        None
    }
}

/// Where `s` holds `id`, the route found there is the one `lookup` gives.
pub proof fn lemma_lookup_at(s: Seq<Route>, id: Seq<char>, i: int)
    requires
        ids_unique(s),
        0 <= i < s.len(),
        s[i].id@ == id,
    ensures
        lookup(s, id) == Some(s[i]),
{
    assert(has_id(s, id));
    let j = choose|j: int| 0 <= j < s.len() && #[trigger] s[j].id@ == id;
    assert(s[j].id@ == s[i].id@);
}

/// Appending a route under a fresh identifier leaves every other lookup as it
/// was and makes the new route the one found under its identifier.
pub proof fn lemma_lookup_push(s: Seq<Route>, route: Route, id: Seq<char>)
    requires
        ids_unique(s),
        !has_id(s, route.id@),
    ensures
        ids_unique(s.push(route)),
        lookup(s.push(route), id) == if id == route.id@ {
            Some(route)
        } else {
            lookup(s, id)
        },
{
    let t = s.push(route);
    assert forall|i: int, j: int|
        0 <= i < t.len() && 0 <= j < t.len() && i != j implies #[trigger] t[i].id@
        != #[trigger] t[j].id@ by {
        if i == s.len() {
            assert(s[j].id@ == t[j].id@);
        } else if j == s.len() {
            assert(s[i].id@ == t[i].id@);
        } else {
            assert(t[i] == s[i] && t[j] == s[j]);
        }
    }
    if id == route.id@ {
        lemma_lookup_at(t, id, s.len() as int);
    } else if has_id(s, id) {
        let i = choose|i: int| 0 <= i < s.len() && #[trigger] s[i].id@ == id;
        lemma_lookup_at(s, id, i);
        assert(t[i] == s[i]);
        lemma_lookup_at(t, id, i);
    } else {
        assert(!has_id(t, id)) by {
            if has_id(t, id) {
                let i = choose|i: int| 0 <= i < t.len() && #[trigger] t[i].id@ == id;
                assert(t[i] == s[i]);
            }
        }
    }
}

/// Removing the route at `k` takes its identifier out of the store and leaves
/// every other lookup as it was.
pub proof fn lemma_lookup_remove(s: Seq<Route>, k: int, id: Seq<char>)
    requires
        ids_unique(s),
        0 <= k < s.len(),
    ensures
        ids_unique(s.remove(k)),
        lookup(s.remove(k), id) == if id == s[k].id@ {
            None
        } else {
            lookup(s, id)
        },
{
    let t = s.remove(k);
    assert forall|i: int, j: int|
        0 <= i < t.len() && 0 <= j < t.len() && i != j implies #[trigger] t[i].id@
        != #[trigger] t[j].id@ by {
        let a = if i < k { i } else { i + 1 };
        let b = if j < k { j } else { j + 1 };
        assert(t[i] == s[a] && t[j] == s[b]);
    }
    if has_id(t, id) {
        let i = choose|i: int| 0 <= i < t.len() && #[trigger] t[i].id@ == id;
        let a = if i < k { i } else { i + 1 };
        assert(t[i] == s[a]);
        lemma_lookup_at(s, id, a);
        lemma_lookup_at(t, id, i);
    } else if has_id(s, id) && id != s[k].id@ {
        let a = choose|a: int| 0 <= a < s.len() && #[trigger] s[a].id@ == id;
        let i = if a < k { a } else { a - 1 };
        assert(t[i] == s[a]);
    }
}

/// What the store answers when asked whether an identifier is taken.
#[derive(Debug, Clone, Copy, PartialEq, Eq, Structural)]
pub enum LookupAnswer {
    Absent,
    Present,
    Failed,
}

/// What the store answers to an insert.
#[derive(Debug, Clone, Copy, PartialEq, Eq, Structural)]
pub enum InsertAnswer {
    Inserted,
    /// The identifier was already taken; nothing was written.
    Duplicate,
    Failed,
}

/// An in-memory route store, keyed by identifier. It refuses an insert under
/// an identifier it already holds, so no two routes ever share one.
#[derive(Debug)]
pub struct RouteStore {
    routes: Vec<Route>,
}

impl View for RouteStore {
    type V = Seq<Route>;

    closed spec fn view(&self) -> Seq<Route> {
        self.routes@
    }
}

impl RouteStore {
    /// The store's invariant: identifiers are unique.
    pub open spec fn wf(&self) -> bool {
        ids_unique(self@)
    }

    /// An empty store.
    pub fn new() -> (r: RouteStore)
        ensures
            r.wf(),
            r@ == Seq::<Route>::empty(),
    {
        RouteStore { routes: Vec::new() }
    }

    /// Number of routes held, expired or not.
    pub fn len(&self) -> (r: usize)
        ensures
            r == self@.len(),
    {
        self.routes.len()
    }

    fn position(&self, id: &str) -> (r: Option<usize>)
        ensures
            match r {
                Some(k) => k < self@.len() && self@[k as int].id@ == id@,
                None => !has_id(self@, id@),
            },
    {
        let key = id.to_owned();
        let mut k: usize = 0;
        while k < self.routes.len()
            invariant
                k <= self.routes@.len(),
                key@ == id@,
                forall|j: int| 0 <= j < k ==> #[trigger] self.routes@[j].id@ != id@,
            decreases self.routes@.len() - k,
        {
            if self.routes[k].id == key {
                return Some(k);
            }
            k += 1;
        }
        None
    }

    /// Tells whether a route is stored under `id`.
    pub fn contains(&self, id: &str) -> (r: LookupAnswer)
        ensures
            r == if has_id(self@, id@) {
                LookupAnswer::Present
            } else {
                LookupAnswer::Absent
            },
    {
        match self.position(id) {
            Some(_) => LookupAnswer::Present,
            None => LookupAnswer::Absent,
        }
    }

    /// The route stored under `id`, if any.
    pub fn get(&self, id: &str) -> (r: Option<Route>)
        requires
            self.wf(),
        ensures
            r == lookup(self@, id@),
    {
        match self.position(id) {
            Some(k) => {
                proof {
                    lemma_lookup_at(self@, id@, k as int);
                }
                Some(self.routes[k].duplicate())
            },
            None => None,
        }
    }

    /// Stores `route` unless its identifier is taken, in which case nothing
    /// changes and `Duplicate` is answered.
    pub fn insert(&mut self, route: Route) -> (r: InsertAnswer)
        requires
            old(self).wf(),
        ensures
            final(self).wf(),
            has_id(old(self)@, route.id@) ==> r == InsertAnswer::Duplicate && final(self)@ == old(
                self,
            )@,
            !has_id(old(self)@, route.id@) ==> r == InsertAnswer::Inserted && final(self)@ == old(
                self,
            )@.push(route),
    {
        match self.position(route.id.as_str()) {
            Some(_) => InsertAnswer::Duplicate,
            None => {
                proof {
                    lemma_lookup_push(self@, route, route.id@);
                }
                self.routes.push(route);
                InsertAnswer::Inserted
            },
        }
    }

    /// Deletes the route stored under `id`, telling whether there was one.
    /// Every other identifier keeps its route.
    pub fn remove(&mut self, id: &str) -> (r: bool)
        requires
            old(self).wf(),
        ensures
            final(self).wf(),
            r == has_id(old(self)@, id@),
            lookup(final(self)@, id@) is None,
            forall|other: Seq<char>|
                other != id@ ==> #[trigger] lookup(final(self)@, other) == lookup(old(self)@, other),
            !r ==> final(self)@ == old(self)@,
    {
        match self.position(id) {
            Some(k) => {
                proof {
                    lemma_lookup_remove(self@, k as int, id@);
                    assert forall|other: Seq<char>| other != id@ implies #[trigger] lookup(
                        self@.remove(k as int),
                        other,
                    ) == lookup(self@, other) by {
                        lemma_lookup_remove(self@, k as int, other);
                    }
                }
                self.routes.remove(k);
                true
            },
            None => {
                assert(lookup(self@, id@) is None);
                false
            },
        }
    }
}

} // verus!
