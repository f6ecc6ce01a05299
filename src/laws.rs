//! Properties that hold across calls of the event operations.
use vstd::prelude::*;
use crate::event::{
    Actor, Error, Event, EventView, first_change_error, first_error, host_marker, listing,
    member_line, seed_members, ascending,
};
use crate::instant::{Instant, InstantError, LocalResolution, resolved};
use crate::store::{Mutation, mutated_slot};
use crate::text::mention;

verus! {

/// Joining twice leaves the slot as joining once does, and leaving twice
/// leaves it as leaving once does.
pub proof fn lemma_membership_idempotent(slot: Option<EventView>, actor: Actor)
    ensures
        mutated_slot(mutated_slot(slot, Mutation::Join(actor)), Mutation::Join(actor))
            == mutated_slot(slot, Mutation::Join(actor)),
        mutated_slot(mutated_slot(slot, Mutation::Leave(actor)), Mutation::Leave(actor))
            == mutated_slot(slot, Mutation::Leave(actor)),
{
    if let Some(v) = slot {
        assert(v.members.insert(actor).insert(actor) =~= v.members.insert(actor));
        assert(v.members.remove(actor).remove(actor) =~= v.members.remove(actor));
    }
}

/// An event made with a host has the host as its one member, and its
/// listing is the host's line, which carries the host marker.
pub proof fn lemma_host_seeding(e: Event, host: Actor)
    requires
        e.wf(),
        e.host == Some(host),
        e@.members == seed_members(Some(host)),
    ensures
        e@.members.contains(host),
        e.members@ == seq![host],
        listing(e.members@, e.host) == seq!['\n', '-', ' '] + mention(host.id) + host_marker(),
{
    let s = e.members@;
    assert(s.to_set().contains(host));
    assert(s.contains(host));
    if s.len() > 1 {
        assert(s.to_set().contains(s[0]) && s.to_set().contains(s[1]));
        assert(s[0] == host && s[1] == host);
        assert(s[0].id < s[1].id);
    }
    assert(s =~= seq![host]);
    assert(s.drop_last() =~= Seq::<Actor>::empty());
    assert(listing(s, e.host) == listing(s.drop_last(), e.host) + member_line(host, e.host));
    assert(listing(s, e.host) =~= seq!['\n', '-', ' '] + mention(host.id) + host_marker());
}

proof fn lemma_ascending_unique(s: Seq<Actor>, t: Seq<Actor>)
    requires
        ascending(s),
        ascending(t),
        s.to_set() == t.to_set(),
    ensures
        s == t,
    decreases s.len(),
{
    if s.len() == 0 {
        if t.len() > 0 {
            assert(t.to_set().contains(t[0]));
        }
        assert(s =~= t);
    } else {
        assert(s.to_set().contains(s[0]));
        assert(t.len() > 0);
        assert(t.to_set().contains(t[0]));
        let i = choose|i: int| 0 <= i < t.len() && t[i] == s[0];
        let j = choose|j: int| 0 <= j < s.len() && s[j] == t[0];
        if i > 0 {
            assert(t[0].id < t[i].id);
        }
        if j > 0 {
            assert(s[0].id < s[j].id);
        }
        assert(s[0] == t[0]);
        let s1 = s.drop_first();
        let t1 = t.drop_first();
        assert forall|x: Actor| s1.contains(x) <==> t1.contains(x) by {
            if s1.contains(x) {
                let k = choose|k: int| 0 <= k < s1.len() && s1[k] == x;
                assert(s[k + 1] == x && s[0].id < x.id);
                assert(s.to_set().contains(x));
                let m = choose|m: int| 0 <= m < t.len() && t[m] == x;
                assert(m != 0);
                assert(t1[m - 1] == x);
            }
            if t1.contains(x) {
                let k = choose|k: int| 0 <= k < t1.len() && t1[k] == x;
                assert(t[k + 1] == x && t[0].id < x.id);
                assert(t.to_set().contains(x));
                let m = choose|m: int| 0 <= m < s.len() && s[m] == x;
                assert(m != 0);
                assert(s1[m - 1] == x);
            }
        }
        assert(s1.to_set() =~= t1.to_set());
        lemma_ascending_unique(s1, t1);
        assert(s =~= seq![s[0]] + s1);
        assert(t =~= seq![t[0]] + t1);
    }
}

/// The member listing depends only on who the members are and who hosts, not
/// on the order in which they joined.
pub proof fn lemma_listing_order_independent(a: Event, b: Event)
    requires
        a.wf(),
        b.wf(),
        a@.members == b@.members,
        a.host == b.host,
    ensures
        listing(a.members@, a.host) == listing(b.members@, b.host),
{
    lemma_ascending_unique(a.members@, b.members@);
}

/// A local time that the time zone maps to no instant, or to more than one, is
/// rejected as ambiguous, never resolved to a chosen instant, both when an
/// event is made and when it is updated.
pub proof fn lemma_no_unique_instant_rejected(
    res: LocalResolution,
    end: Option<Result<Instant, InstantError>>,
    new_end: Option<Option<Result<Instant, InstantError>>>,
)
    requires
        !(res is Single),
    ensures
        resolved(res) == Err::<Instant, InstantError>(InstantError::Ambiguous),
        first_error(resolved(res), end) == Some(Error::Ambiguous),
        first_change_error(Some(resolved(res)), new_end) == Some(Error::Ambiguous),
{
}

} // verus!
