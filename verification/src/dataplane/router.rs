//! Routes from the producers of events to those who take their events:
//! each producer has a list of senders, in the order in which they were
//! added. The router finds the senders; sending is the caller's part.

use vstd::prelude::*;

verus! {

/// The senders for the events of one producer.
pub struct Route<S> {
    /// The producer.
    pub source_id: u32,
    /// The senders, in the order in which they were added.
    pub senders: Vec<S>,
}

/// Whether some route of the list is for the producer.
pub open spec fn has_route<S>(routes: Seq<Route<S>>, source_id: u32) -> bool {
    exists|i: int| 0 <= i < routes.len() && (#[trigger] routes[i]).source_id == source_id
}

/// The place of the route for the producer.
pub open spec fn index_of_route<S>(routes: Seq<Route<S>>, source_id: u32) -> int {
    choose|i: int| 0 <= i < routes.len() && (#[trigger] routes[i]).source_id == source_id
}

/// The senders for the producer, none where it has no route.
pub open spec fn senders_for<S>(routes: Seq<Route<S>>, source_id: u32) -> Seq<S> {
    if has_route(routes, source_id) {
        routes[index_of_route(routes, source_id)].senders@
    } else {
        Seq::empty()
    }
}

/// The routes of all producers.
pub struct EventRouter<S> {
    routes: Vec<Route<S>>,
}

impl<S> EventRouter<S> {
    /// The routes, in the order in which their producers first got one.
    pub closed spec fn routes(&self) -> Seq<Route<S>> {
        self.routes@
    }

    /// The senders for the producer.
    pub open spec fn targets(&self, source_id: u32) -> Seq<S> {
        senders_for(self.routes(), source_id)
    }

    /// No two routes are for one producer.
    pub open spec fn wf(&self) -> bool {
        forall|i: int, j: int|
            0 <= i < self.routes().len() && 0 <= j < self.routes().len() && i != j ==> (
            #[trigger] self.routes()[i]).source_id != (#[trigger] self.routes()[j]).source_id
    }

    /// A router without routes.
    pub fn new() -> (r: Self)
        ensures
            r.wf(),
            r.routes().len() == 0,
            forall|source_id: u32| r.targets(source_id).len() == 0,
    {
        EventRouter { routes: Vec::new() }
    }

    /// The place of the route for the producer.
    fn find(&self, source_id: u32) -> (r: Option<usize>)
        requires
            self.wf(),
        ensures
            match r {
                Some(i) => i < self.routes().len() && self.routes()[i as int].source_id == source_id && i
                    == index_of_route(self.routes(), source_id),
                None => !has_route(self.routes(), source_id),
            },
    {
        let mut i: usize = 0;
        while i < self.routes.len()
            invariant
                self.wf(),
                i <= self.routes.len(),
                forall|j: int| 0 <= j < i ==> (#[trigger] self.routes@[j]).source_id != source_id,
            decreases self.routes.len() - i,
        {
            if self.routes[i].source_id == source_id {
                proof {
                    assert(self.routes()[i as int].source_id == source_id);
                    let k = index_of_route(self.routes(), source_id);
                    assert(self.routes()[k].source_id == source_id);
                }
                return Some(i);
            }
            i = i + 1;
        }
        None
    }

    /// Adds a sender for the events of a producer, behind the senders
    /// that the producer has.
    pub fn add_route(&mut self, source_id: u32, sender: S)
        requires
            old(self).wf(),
        ensures
            final(self).wf(),
            final(self).targets(source_id) == old(self).targets(source_id).push(sender),
            forall|other: u32| other != source_id ==> final(self).targets(other) == old(self).targets(other),
    {
        let ghost before = self.routes@;
        match self.find(source_id) {
            Some(i) => {
                self.routes[i].senders.push(sender);
                proof {
                    let after = self.routes@;
                    assert(after[i as int].source_id == source_id);
                    assert forall|k: int| 0 <= k < after.len() implies (#[trigger] after[k]).source_id
                        == before[k].source_id by {}
                    assert forall|other: u32| other != source_id implies senders_for(after, other)
                        == senders_for(before, other) by {
                        if has_route(before, other) {
                            let k = index_of_route(before, other);
                            assert(after[k].source_id == other);
                            let l = index_of_route(after, other);
                            assert(before[l].source_id == other);
                        } else if has_route(after, other) {
                            let l = index_of_route(after, other);
                            assert(before[l].source_id == other);
                        }
                    }
                }
            },
            None => {
                let mut senders: Vec<S> = Vec::new();
                senders.push(sender);
                self.routes.push(Route { source_id, senders });
                proof {
                    let after = self.routes@;
                    let n = before.len() as int;
                    assert(after[n].source_id == source_id);
                    assert(after[n].senders@ =~= Seq::<S>::empty().push(sender));
                    assert forall|other: u32| other != source_id implies senders_for(after, other)
                        == senders_for(before, other) by {
                        if has_route(before, other) {
                            let k = index_of_route(before, other);
                            assert(after[k].source_id == other);
                            let l = index_of_route(after, other);
                            assert(l < n);
                            assert(before[l].source_id == other);
                        } else if has_route(after, other) {
                            let l = index_of_route(after, other);
                            assert(l < n);
                            assert(before[l].source_id == other);
                        }
                    }
                }
            },
        }
    }

    /// The senders to which an event of the producer goes, in the order
    /// in which they were added; `None` for a producer without route.
    pub fn route(&self, source_id: u32) -> (senders: Option<&Vec<S>>)
        requires
            self.wf(),
        ensures
            senders is Some <==> has_route(self.routes(), source_id),
            senders is Some ==> senders->0@ == self.targets(source_id),
    {
        match self.find(source_id) {
            Some(i) => Some(&self.routes[i].senders),
            None => None,
        }
    }
}

impl<S> Default for EventRouter<S> {
    fn default() -> (r: EventRouter<S>)
        ensures
            r.wf(),
            r.routes().len() == 0,
    {
        EventRouter::new()
    }
}

} // verus!
