//! The slot that holds the one active event, and the operations on it.
//!
//! Each operation is one step on the slot: a caller that guards the store
//! with a lock runs each step under one acquisition, so the snapshot an
//! operation returns is the state that operation committed.
use vstd::prelude::*;
use crate::event::{Actor, Changes, Error, Event, EventView, revised};
use crate::permission::{RoleCheck, is_privileged, privileged};

verus! {

/// A change to the event in the slot.
#[derive(Debug)]
pub enum Mutation {
    /// Add an actor to the members.
    Join(Actor),
    /// Take an actor out of the members.
    Leave(Actor),
    /// Apply a set of field changes.
    Revise(Changes),
}

/// An event after a mutation.
pub open spec fn mutated(v: EventView, m: Mutation) -> EventView {
    match m {
        Mutation::Join(a) => EventView { members: v.members.insert(a), ..v },
        Mutation::Leave(a) => EventView { members: v.members.remove(a), ..v },
        Mutation::Revise(c) => revised(v, c),
    }
}

/// The slot after a mutation: an empty slot stays empty.
pub open spec fn mutated_slot(slot: Option<EventView>, m: Mutation) -> Option<EventView> {
    match slot {
        Some(v) => Some(mutated(v, m)),
        None => None,
    }
}

/// The abstract content of an optional snapshot.
pub open spec fn snapshot_view(s: Option<Event>) -> Option<EventView> {
    match s {
        Some(e) => Some(e@),
        None => None,
    }
}

/// The abstract content of an operation's outcome.
pub open spec fn outcome_view(r: Result<Event, Error>) -> Result<EventView, Error> {
    match r {
        Ok(e) => Ok(e@),
        Err(x) => Err(x),
    }
}

/// The event in a slot, or `NoActiveEvent` for an empty slot.
pub open spec fn present(slot: Option<EventView>) -> Result<EventView, Error> {
    match slot {
        Some(v) => Ok(v),
        None => Err(Error::NoActiveEvent),
    }
}

/// The slot for the single active event.
pub struct EventStore {
    slot: Option<Event>,
}

impl View for EventStore {
    type V = Option<EventView>;

    closed spec fn view(&self) -> Option<EventView> {
        snapshot_view(self.slot)
    }
}

impl EventStore {
    /// The event in the slot, if any, is well formed.
    pub closed spec fn wf(&self) -> bool {
        match self.slot {
            Some(e) => e.wf(),
            None => true,
        }
    }

    /// An empty slot.
    pub fn new() -> (r: EventStore)
        ensures
            r.wf(),
            r@ is None,
    {
        EventStore { slot: None }
    }

    /// Installs `event`, discarding whatever the slot held, and returns a
    /// snapshot of it.
    pub fn create(&mut self, event: Event) -> (r: Event)
        requires
            old(self).wf(),
            event.wf(),
        ensures
            final(self).wf(),
            final(self)@ == Some(event@),
            r.wf(),
            r@ == event@,
    {
        let snap = event.snapshot();
        self.slot = Some(event);
        snap
    }

    /// A snapshot of the event in the slot, if any.
    pub fn read(&self) -> (r: Option<Event>)
        requires
            self.wf(),
        ensures
            snapshot_view(r) == self@,
            r matches Some(e) ==> e.wf(),
    {
        match &self.slot {
            Some(e) => Some(e.snapshot()),
            None => None,
        }
    }

    /// Empties the slot and returns what it held.
    pub fn clear(&mut self) -> (r: Option<Event>)
        requires
            old(self).wf(),
        ensures
            final(self).wf(),
            final(self)@ is None,
            snapshot_view(r) == old(self)@,
            r matches Some(e) ==> e.wf(),
    {
        self.slot.take()
    }

    /// Applies `m` to the event in the slot, if any, and returns a snapshot of
    /// the event as committed. An empty slot stays empty and gives `None`.
    pub fn mutate_if_present(&mut self, m: Mutation) -> (r: Option<Event>)
        requires
            old(self).wf(),
        ensures
            final(self).wf(),
            final(self)@ == mutated_slot(old(self)@, m),
            snapshot_view(r) == final(self)@,
            r matches Some(e) ==> e.wf(),
    {
        match self.slot.take() {
            None => None,
            Some(mut e) => {
                match m {
                    Mutation::Join(a) => e.addmember(&a),
                    Mutation::Leave(a) => e.removemember(&a),
                    Mutation::Revise(c) => e.revise(c),
                }
                let snap = e.snapshot();
                self.slot = Some(e);
                Some(snap)
            },
        }
    }

    /// Runs a mutation and turns an empty slot into `NoActiveEvent`.
    fn mutate_or_report(&mut self, m: Mutation) -> (r: Result<Event, Error>)
        requires
            old(self).wf(),
        ensures
            final(self).wf(),
            final(self)@ == mutated_slot(old(self)@, m),
            outcome_view(r) == present(final(self)@),
            r matches Ok(e) ==> e.wf(),
    {
        match self.mutate_if_present(m) {
            Some(e) => Ok(e),
            None => Err(Error::NoActiveEvent),
        }
    }

    /// Adds `actor` to the members and returns the event as committed.
    pub fn join(&mut self, actor: Actor) -> (r: Result<Event, Error>)
        requires
            old(self).wf(),
        ensures
            final(self).wf(),
            final(self)@ == mutated_slot(old(self)@, Mutation::Join(actor)),
            outcome_view(r) == present(final(self)@),
            r matches Ok(e) ==> e.wf(),
    {
        self.mutate_or_report(Mutation::Join(actor))
    }

    /// Takes `actor` out of the members and returns the event as committed.
    pub fn leave(&mut self, actor: Actor) -> (r: Result<Event, Error>)
        requires
            old(self).wf(),
        ensures
            final(self).wf(),
            final(self)@ == mutated_slot(old(self)@, Mutation::Leave(actor)),
            outcome_view(r) == present(final(self)@),
            r matches Ok(e) ==> e.wf(),
    {
        self.mutate_or_report(Mutation::Leave(actor))
    }

    /// Applies parsed changes and returns the event as committed.
    pub fn update(&mut self, changes: Changes) -> (r: Result<Event, Error>)
        requires
            old(self).wf(),
        ensures
            final(self).wf(),
            final(self)@ == mutated_slot(old(self)@, Mutation::Revise(changes)),
            outcome_view(r) == present(final(self)@),
            r matches Ok(e) ==> e.wf(),
    {
        self.mutate_or_report(Mutation::Revise(changes))
    }

    /// Takes `target` out of the members on behalf of `actor`, a privileged
    /// operation. An actor without privilege gets `Unauthorized` and the slot
    /// is left as it was.
    pub fn remove(&mut self, check: RoleCheck, actor: Actor, target: Actor) -> (r: Result<
        Event,
        Error,
    >)
        requires
            old(self).wf(),
        ensures
            final(self).wf(),
            !privileged(check, actor, old(self)@) ==> r == Err::<Event, Error>(Error::Unauthorized)
                && final(self)@ == old(self)@,
            privileged(check, actor, old(self)@) ==> final(self)@ == mutated_slot(
                old(self)@,
                Mutation::Leave(target),
            ) && outcome_view(r) == present(final(self)@),
            r matches Ok(e) ==> e.wf(),
    {
        let allowed = match &self.slot {
            Some(e) => is_privileged(check, &actor, Some(e)),
            None => is_privileged(check, &actor, None),
        };
        if !allowed {
            return Err(Error::Unauthorized);
        }
        self.mutate_or_report(Mutation::Leave(target))
    }

    /// Empties the slot on behalf of `actor`, a privileged operation, and
    /// returns the discarded event. An actor without privilege gets
    /// `Unauthorized` and the slot is left as it was.
    pub fn cancel(&mut self, check: RoleCheck, actor: Actor) -> (r: Result<Event, Error>)
        requires
            old(self).wf(),
        ensures
            final(self).wf(),
            !privileged(check, actor, old(self)@) ==> r == Err::<Event, Error>(Error::Unauthorized)
                && final(self)@ == old(self)@,
            privileged(check, actor, old(self)@) ==> final(self)@ is None && outcome_view(r)
                == present(old(self)@),
            r matches Ok(e) ==> e.wf(),
    {
        let allowed = match &self.slot {
            Some(e) => is_privileged(check, &actor, Some(e)),
            None => is_privileged(check, &actor, None),
        };
        if !allowed {
            return Err(Error::Unauthorized);
        }
        match self.clear() {
            Some(e) => Ok(e),
            None => Err(Error::NoActiveEvent),
        }
    }
}

} // verus!
