//! Who may perform the privileged operations (cancel, forced remove).
//!
//! Holding the trusted role is decided outside (it may need a network round
//! trip), before the store is touched; the outcome is handed in as a
//! [`RoleCheck`]. Being the event's creator is decided here.
use vstd::prelude::*;
use crate::event::{Actor, Event, EventView};

verus! {

/// The outcome of asking whether an actor holds the trusted role.
#[derive(Clone, Copy, Debug, PartialEq, Eq, Structural)]
pub enum RoleCheck {
    /// No trusted role is configured, so nobody holds it.
    NotConfigured,
    /// The question could not be answered; this counts as not holding it.
    Failed,
    /// The answer that came back.
    Answered(bool),
}

/// Whether the role check grants privilege: only a positive answer does.
pub open spec fn role_grants(check: RoleCheck) -> bool {
    check == RoleCheck::Answered(true)
}

/// An actor is privileged when they hold the trusted role, or when there is an
/// event and they created it.
pub open spec fn privileged(check: RoleCheck, actor: Actor, event: Option<EventView>) -> bool {
    role_grants(check) || (event is Some && event->0.creator == actor)
}

/// Decides whether `actor` may perform a privileged operation on `event`.
pub fn is_privileged(check: RoleCheck, actor: &Actor, event: Option<&Event>) -> (r: bool)
    ensures
        r == privileged(
            check,
            *actor,
            match event {
                Some(e) => Some(e@),
                None => None,
            },
        ),
{
    let by_role = match check {
        RoleCheck::Answered(answer) => answer,
        _ => false,
    };
    let by_creation = match event {
        Some(e) => e.creator == *actor,
        None => false,
    };
    by_role || by_creation
}

/// Without a trusted role configured, exactly the event's creator is
/// privileged, and nobody is when there is no event.
pub proof fn lemma_creator_only_without_role(actor: Actor, event: Option<EventView>)
    ensures
        privileged(RoleCheck::NotConfigured, actor, event) <==> (event is Some && event->0.creator
            == actor),
{
}

} // verus!
