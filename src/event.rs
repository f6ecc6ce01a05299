//! The gathering itself: its data, its members, and how they are listed.
use vstd::prelude::*;
use crate::instant::{Instant, InstantError, parse_instant, wall_clock_parses};
use crate::text::{decimal, mention, push_decimal, push_mention, push_signed_decimal, signed_decimal};

verus! {

/// A participant, identified by their chat user id.
#[derive(Clone, Copy, Debug, PartialEq, Eq, Structural, Hash)]
pub struct Actor {
    pub id: u64,
}

/// What can go wrong with a command on the event.
#[derive(Clone, Copy, Debug, PartialEq, Eq, Structural)]
pub enum Error {
    /// The start text does not match the timestamp format.
    BadStart,
    /// The end text does not match the timestamp format.
    BadEnd,
    /// A start or end names a local time with no unique instant.
    Ambiguous,
    /// The actor may not perform this privileged operation.
    Unauthorized,
    /// There is no event to act on.
    NoActiveEvent,
    /// The store's lock is broken; the operation did not happen.
    StoreUnavailable,
}

/// The abstract content of an event.
pub ghost struct EventView {
    pub start: Instant,
    pub end: Option<Instant>,
    pub members: Set<Actor>,
    pub location: Seq<char>,
    pub host: Option<Actor>,
    pub title: Seq<char>,
    pub description: Seq<char>,
    pub creator: Actor,
}

/// The members a new event starts with: the host, if there is one.
pub open spec fn seed_members(host: Option<Actor>) -> Set<Actor> {
    match host {
        Some(h) => set![h],
        None => Set::empty(),
    }
}

/// Ids strictly increase along the sequence (so no actor appears twice).
pub open spec fn ascending(s: Seq<Actor>) -> bool {
    forall|i: int, j: int| 0 <= i < j < s.len() ==> s[i].id < s[j].id
}

/// The text `" (host)"` that marks the host in a listing.
pub open spec fn host_marker() -> Seq<char> {
    seq![' ', '(', 'h', 'o', 's', 't', ')']
}

/// One line of the member listing: a newline, a bullet, the mention, and the
/// host marker when the member is the host.
pub open spec fn member_line(a: Actor, host: Option<Actor>) -> Seq<char> {
    seq!['\n', '-', ' '] + mention(a.id) + if host == Some(a) {
        host_marker()
    } else {
        Seq::empty()
    }
}

/// The member listing: one line per member, in the given order.
pub open spec fn listing(ms: Seq<Actor>, host: Option<Actor>) -> Seq<char>
    decreases ms.len(),
{
    if ms.len() == 0 {
        Seq::empty()
    } else {
        listing(ms.drop_last(), host) + member_line(ms.last(), host)
    }
}

/// The first error in a start and an optional end that were parsed, in that
/// order, or none when both gave an instant.
pub open spec fn first_error(
    start: Result<Instant, InstantError>,
    end: Option<Result<Instant, InstantError>>,
) -> Option<Error> {
    match start {
        Err(InstantError::Malformed) => Some(Error::BadStart),
        Err(InstantError::Ambiguous) => Some(Error::Ambiguous),
        Ok(_) => match end {
            Some(Err(InstantError::Malformed)) => Some(Error::BadEnd),
            Some(Err(InstantError::Ambiguous)) => Some(Error::Ambiguous),
            _ => None,
        },
    }
}

/// The instant of a parsed optional end, when it gave one.
pub open spec fn end_instant(end: Option<Result<Instant, InstantError>>) -> Option<Instant> {
    match end {
        Some(Ok(t)) => Some(t),
        _ => None,
    }
}

/// A newly made event: its members are the host alone, if any.
pub open spec fn fresh(
    title: Seq<char>,
    description: Seq<char>,
    start: Instant,
    end: Option<Instant>,
    host: Option<Actor>,
    location: Seq<char>,
    creator: Actor,
) -> EventView {
    EventView {
        start,
        end,
        members: seed_members(host),
        location,
        host,
        title,
        description,
        creator,
    }
}

/// The word that, given as the new end, removes the end.
pub open spec fn clear_word() -> Seq<char> {
    seq!['N', 'o', 'n', 'e']
}

/// A set of field changes for an existing event, already parsed: a field left
/// `None` keeps its value.
#[derive(Debug)]
pub struct Changes {
    pub title: Option<String>,
    pub description: Option<String>,
    pub start: Option<Instant>,
    /// `Some(None)` removes the end.
    pub end: Option<Option<Instant>>,
    pub location: Option<String>,
    /// `Some(None)` removes the host.
    pub host: Option<Option<Actor>>,
}

/// A text field after an optional replacement.
pub open spec fn replaced(old: Seq<char>, new: Option<String>) -> Seq<char> {
    match new {
        Some(t) => t@,
        None => old,
    }
}

/// A plain field after an optional replacement.
pub open spec fn replaced_with<T>(old: T, new: Option<T>) -> T {
    match new {
        Some(t) => t,
        None => old,
    }
}

/// An event after a set of changes. The members are left as they were, also
/// when the host changes.
pub open spec fn revised(v: EventView, c: Changes) -> EventView {
    EventView {
        start: replaced_with(v.start, c.start),
        end: replaced_with(v.end, c.end),
        members: v.members,
        location: replaced(v.location, c.location),
        host: replaced_with(v.host, c.host),
        title: replaced(v.title, c.title),
        description: replaced(v.description, c.description),
        creator: v.creator,
    }
}

/// The host change that `host` and `removehost` ask for: removal wins.
pub open spec fn host_change(host: Option<Actor>, removehost: Option<bool>) -> Option<Option<Actor>> {
    if removehost == Some(true) {
        Some(None)
    } else {
        match host {
            Some(h) => Some(Some(h)),
            None => None,
        }
    }
}

/// The first error in an optional new start and an optional new end (where
/// `Some(None)` is a removal), start first.
pub open spec fn first_change_error(
    start: Option<Result<Instant, InstantError>>,
    end: Option<Option<Result<Instant, InstantError>>>,
) -> Option<Error> {
    match start {
        Some(Err(InstantError::Malformed)) => Some(Error::BadStart),
        Some(Err(InstantError::Ambiguous)) => Some(Error::Ambiguous),
        _ => match end {
            Some(Some(Err(InstantError::Malformed))) => Some(Error::BadEnd),
            Some(Some(Err(InstantError::Ambiguous))) => Some(Error::Ambiguous),
            _ => None,
        },
    }
}

impl Changes {
    /// Assembles changes from a start and an end that were already parsed.
    /// The first parse error, start before end, is the result; nothing else
    /// is kept then.
    pub fn from_parsed(
        title: Option<String>,
        description: Option<String>,
        start: Option<Result<Instant, InstantError>>,
        end: Option<Option<Result<Instant, InstantError>>>,
        location: Option<String>,
        host: Option<Actor>,
        removehost: Option<bool>,
    ) -> (r: Result<Changes, Error>)
        ensures
            match first_change_error(start, end) {
                Some(e) => r == Err::<Changes, Error>(e),
                None => r is Ok && {
                    let c = r->Ok_0;
                    &&& c.title == title
                    &&& c.description == description
                    &&& c.location == location
                    &&& c.host == host_change(host, removehost)
                    &&& c.start == match start {
                        Some(Ok(t)) => Some(t),
                        _ => None::<Instant>,
                    }
                    &&& c.end == match end {
                        Some(Some(Ok(t))) => Some(Some(t)),
                        Some(None) => Some(None::<Instant>),
                        _ => None::<Option<Instant>>,
                    }
                },
            },
    {
        let start = match start {
            None => None,
            Some(Ok(t)) => Some(t),
            Some(Err(InstantError::Malformed)) => return Err(Error::BadStart),
            Some(Err(InstantError::Ambiguous)) => return Err(Error::Ambiguous),
        };
        let end = match end {
            None => None,
            Some(None) => Some(None),
            Some(Some(Ok(t))) => Some(Some(t)),
            Some(Some(Err(InstantError::Malformed))) => return Err(Error::BadEnd),
            Some(Some(Err(InstantError::Ambiguous))) => return Err(Error::Ambiguous),
        };
        let host = if removehost == Some(true) {
            Some(None)
        } else {
            match host {
                Some(h) => Some(Some(h)),
                None => None,
            }
        };
        Ok(Changes { title, description, start, end, location, host })
    }

    /// Parses the changes that a user asked for. `start` and `end` are read as
    /// local times in the timestamp format; the end `"None"` removes the end;
    /// `removehost` set to `true` removes the host, and wins over `host`.
    ///
    /// Any field that does not parse fails the whole set, so an update never
    /// applies part of its changes: `BadStart`, `BadEnd` or `Ambiguous`, the
    /// start checked first.
    pub fn parse(
        title: Option<String>,
        description: Option<String>,
        start: Option<String>,
        end: Option<String>,
        location: Option<String>,
        host: Option<Actor>,
        removehost: Option<bool>,
    ) -> (r: Result<Changes, Error>)
        ensures
            start is Some && !wall_clock_parses(start->0@) ==> r == Err::<Changes, Error>(
                Error::BadStart,
            ),
            r == Err::<Changes, Error>(Error::BadStart) ==> start is Some && !wall_clock_parses(
                start->0@,
            ),
            r == Err::<Changes, Error>(Error::BadEnd) ==> end is Some && end->0@ != clear_word()
                && !wall_clock_parses(end->0@),
            (start is Some ==> wall_clock_parses(start->0@)) && end is Some && end->0@
                != clear_word() && !wall_clock_parses(end->0@) ==> (r == Err::<Changes, Error>(
                Error::BadEnd,
            ) || r == Err::<Changes, Error>(Error::Ambiguous)),
            start is None && (end is None || end->0@ == clear_word()) ==> r is Ok,
            start is None && end is Some && end->0@ != clear_word() && !wall_clock_parses(end->0@)
                ==> r == Err::<Changes, Error>(Error::BadEnd),
            r is Err ==> r == Err::<Changes, Error>(Error::BadStart) || r == Err::<Changes, Error>(
                Error::BadEnd,
            ) || r == Err::<Changes, Error>(Error::Ambiguous),
            r is Ok ==> {
                let c = r->Ok_0;
                &&& c.title == title
                &&& c.description == description
                &&& c.location == location
                &&& c.host == host_change(host, removehost)
                &&& c.start is Some == start is Some
                &&& end is None ==> c.end is None
                &&& end is Some && end->0@ == clear_word() ==> c.end == Some(None::<Instant>)
                &&& end is Some && end->0@ != clear_word() ==> c.end matches Some(Some(_))
            },
    {
        let parsed_start = match start {
            Some(text) => Some(parse_instant(text.as_str())),
            None => None,
        };
        let parsed_end = match end {
            Some(text) => {
                let word = String::from_str("None");
                proof {
                    reveal_strlit("None");
                    assert(word@ =~= clear_word());
                }
                if text == word {
                    Some(None)
                } else {
                    Some(Some(parse_instant(text.as_str())))
                }
            },
            None => None,
        };
        Changes::from_parsed(title, description, parsed_start, parsed_end, location, host, removehost)
    }
}

/// A chat timestamp tag for `t` in the given style: `<t:` seconds `:` style `>`.
pub open spec fn time_tag(t: Instant, style: char) -> Seq<char> {
    "<t:"@ + signed_decimal(t.timestamp as int) + seq![':', style, '>']
}

/// A point in time shown relative to now and in full: `<t:N:R> (<t:N:F>)`.
pub open spec fn when(t: Instant) -> Seq<char> {
    time_tag(t, 'R') + " ("@ + time_tag(t, 'F') + ")"@
}

/// The line for the end, empty when there is none.
pub open spec fn end_line(end: Option<Instant>) -> Seq<char> {
    match end {
        Some(t) => "**Ends**: "@ + when(t),
        None => Seq::empty(),
    }
}

/// The host in parentheses, empty when there is none.
pub open spec fn host_note(host: Option<Actor>) -> Seq<char> {
    match host {
        Some(h) => "("@ + mention(h.id) + ")"@,
        None => Seq::empty(),
    }
}

/// The full announcement text of an event.
pub open spec fn rendering(e: Event) -> Seq<char> {
    "# "@ + e.title@ + "\n## "@ + e.description@ + "\n**Starts**: "@ + when(e.start) + "\n"@
        + end_line(e.end) + "\n**Location**: "@ + e.location@ + " "@ + host_note(e.host)
        + "\n**Members** ("@ + decimal(e.members@.len()) + "): "@ + listing(e.members@, e.host)
}

fn push_time_tag(out: &mut String, t: Instant, relative: bool)
    ensures
        final(out)@ == old(out)@ + time_tag(t, if relative { 'R' } else { 'F' }),
{
    proof {
        reveal_strlit("<t:");
        reveal_strlit(":R>");
        reveal_strlit(":F>");
    }
    out.append("<t:");
    push_signed_decimal(out, t.timestamp);
    if relative {
        out.append(":R>");
    } else {
        out.append(":F>");
    }
    assert(final(out)@ =~= old(out)@ + time_tag(t, if relative { 'R' } else { 'F' }));
}

fn push_when(out: &mut String, t: Instant)
    ensures
        final(out)@ == old(out)@ + when(t),
{
    push_time_tag(out, t, true);
    out.append(" (");
    push_time_tag(out, t, false);
    out.append(")");
    assert(final(out)@ =~= old(out)@ + when(t));
}

/// A scheduled gathering.
#[derive(Debug)]
pub struct Event {
    pub start: Instant,
    pub end: Option<Instant>,
    /// The members, ordered by ascending id.
    pub members: Vec<Actor>,
    pub location: String,
    pub host: Option<Actor>,
    pub title: String,
    pub description: String,
    pub creator: Actor,
}

impl View for Event {
    type V = EventView;

    open spec fn view(&self) -> EventView {
        EventView {
            start: self.start,
            end: self.end,
            members: self.members@.to_set(),
            location: self.location@,
            host: self.host,
            title: self.title@,
            description: self.description@,
            creator: self.creator,
        }
    }
}

impl Event {
    /// The member list holds each member once, by ascending id.
    pub open spec fn wf(&self) -> bool {
        ascending(self.members@)
    }

    /// An independent copy of the event.
    pub fn snapshot(&self) -> (r: Event)
        requires
            self.wf(),
        ensures
            r.wf(),
            r@ == self@,
            r.members@ == self.members@,
    {
        let members = self.members.clone();
        assert(members@ =~= self.members@);
        Event {
            start: self.start,
            end: self.end,
            members,
            location: self.location.clone(),
            host: self.host,
            title: self.title.clone(),
            description: self.description.clone(),
            creator: self.creator,
        }
    }

    /// Makes an event from a start and an optional end that were already
    /// parsed. The first parse error, start before end, is the result;
    /// without one the event is made with the host as its only member.
    pub fn from_parsed(
        title: String,
        description: String,
        start: Result<Instant, InstantError>,
        end: Option<Result<Instant, InstantError>>,
        host: Option<Actor>,
        location: String,
        creator: &Actor,
    ) -> (r: Result<Event, Error>)
        ensures
            match first_error(start, end) {
                Some(e) => r == Err::<Event, Error>(e),
                None => r is Ok && r->Ok_0.wf() && r->Ok_0@ == fresh(
                    title@,
                    description@,
                    start->Ok_0,
                    end_instant(end),
                    host,
                    location@,
                    *creator,
                ),
            },
    {
        let start = match start {
            Ok(t) => t,
            Err(InstantError::Malformed) => return Err(Error::BadStart),
            Err(InstantError::Ambiguous) => return Err(Error::Ambiguous),
        };
        let end = match end {
            None => None,
            Some(Ok(t)) => Some(t),
            Some(Err(InstantError::Malformed)) => return Err(Error::BadEnd),
            Some(Err(InstantError::Ambiguous)) => return Err(Error::Ambiguous),
        };
        let mut members: Vec<Actor> = Vec::new();
        match host {
            Some(h) => {
                members.push(h);
                proof {
                    assert(members@[0] == h);
                    assert forall|x: Actor| members@.contains(x) <==> x == h by {
                        if members@.contains(x) {
                            let k = choose|k: int| 0 <= k < members@.len() && members@[k] == x;
                        }
                    }
                    assert(members@.to_set() =~= seed_members(host));
                }
            },
            None => {
                assert(members@.to_set() =~= seed_members(host));
            },
        }
        Ok(Event { start, end, members, location, host, title, description, creator: *creator })
    }

    /// Makes an event from user text: `start` and `end` are read as local
    /// times in the timestamp format.
    ///
    /// Text that does not match the format gives `BadStart` or `BadEnd`, the
    /// start checked first; a local time with no unique instant gives
    /// `Ambiguous`. The new event has the host, if any, as its only member.
    pub fn new(
        title: String,
        description: String,
        start: String,
        end: Option<String>,
        host: Option<Actor>,
        location: String,
        creator: &Actor,
    ) -> (r: Result<Event, Error>)
        ensures
            !wall_clock_parses(start@) ==> r == Err::<Event, Error>(Error::BadStart),
            wall_clock_parses(start@) && end is Some && !wall_clock_parses(end->0@) ==> (r
                == Err::<Event, Error>(Error::BadEnd) || r == Err::<Event, Error>(Error::Ambiguous)),
            r == Err::<Event, Error>(Error::BadStart) ==> !wall_clock_parses(start@),
            r == Err::<Event, Error>(Error::BadEnd) ==> wall_clock_parses(start@) && end is Some
                && !wall_clock_parses(end->0@),
            r is Err ==> r == Err::<Event, Error>(Error::BadStart) || r == Err::<Event, Error>(
                Error::BadEnd,
            ) || (r == Err::<Event, Error>(Error::Ambiguous) && wall_clock_parses(start@)),
            r is Ok ==> {
                let e = r->Ok_0;
                &&& wall_clock_parses(start@)
                &&& end is Some ==> wall_clock_parses(end->0@)
                &&& e.wf()
                &&& e@ == fresh(title@, description@, e.start, e.end, host, location@, *creator)
                &&& e.end is Some == end is Some
            },
    {
        let parsed_start = parse_instant(start.as_str());
        let parsed_end = match end {
            Some(text) => Some(parse_instant(text.as_str())),
            None => None,
        };
        Event::from_parsed(title, description, parsed_start, parsed_end, host, location, creator)
    }

    /// The announcement text: title, description, start and end as chat
    /// timestamp tags, location, host, the member count and the member listing.
    pub fn to_string(&self) -> (r: String)
        ensures
            r@ == rendering(*self),
    {
        let mut out = String::new();
        out.append("# ");
        out.append(self.title.as_str());
        out.append("\n## ");
        out.append(self.description.as_str());
        out.append("\n**Starts**: ");
        push_when(&mut out, self.start);
        out.append("\n");
        let ghost before_end = out@;
        if let Some(t) = self.end {
            out.append("**Ends**: ");
            push_when(&mut out, t);
        }
        assert(out@ =~= before_end + end_line(self.end));
        out.append("\n**Location**: ");
        out.append(self.location.as_str());
        out.append(" ");
        let ghost before_host = out@;
        if let Some(h) = self.host {
            out.append("(");
            push_mention(&mut out, h.id);
            out.append(")");
        }
        assert(out@ =~= before_host + host_note(self.host));
        out.append("\n**Members** (");
        push_decimal(&mut out, self.members.len() as u64);
        out.append("): ");
        let listed = self.getmembers();
        out.append(listed.as_str());
        assert(out@ =~= rendering(*self));
        out
    }

    /// Whether `who` is the event's host.
    pub fn is_host(&self, who: &Actor) -> (r: bool)
        ensures
            r == (self.host == Some(*who)),
    {
        self.host == Some(*who)
    }

    /// Applies a set of changes; the members stay as they are.
    pub fn revise(&mut self, changes: Changes)
        requires
            old(self).wf(),
        ensures
            final(self).wf(),
            final(self)@ == revised(old(self)@, changes),
    {
        let ghost c = changes;
        let Changes { title, description, start, end, location, host } = changes;
        if let Some(t) = title {
            self.title = t;
        }
        if let Some(d) = description {
            self.description = d;
        }
        if let Some(s) = start {
            self.start = s;
        }
        if let Some(e) = end {
            self.end = e;
        }
        if let Some(l) = location {
            self.location = l;
        }
        if let Some(h) = host {
            self.host = h;
        }
        assert(self@ == revised(old(self)@, c));
    }

    /// Adds `user` to the members; adding a present member changes nothing.
    pub fn addmember(&mut self, user: &Actor)
        requires
            old(self).wf(),
        ensures
            final(self).wf(),
            final(self)@ == (EventView { members: old(self)@.members.insert(*user), ..old(self)@ }),
    {
        let n = self.members.len();
        let mut i: usize = 0;
        while i < n && self.members[i].id < user.id
            invariant
                n == self.members.len(),
                *self == *old(self),
                self.wf(),
                0 <= i <= n,
                forall|k: int| 0 <= k < i ==> self.members@[k].id < user.id,
            decreases n - i,
        {
            i = i + 1;
        }
        if i < n && self.members[i].id == user.id {
            proof {
                assert(self.members@[i as int] == *user);
                assert(self.members@.to_set().insert(*user) =~= self.members@.to_set());
            }
            return;
        }
        let ghost before = self.members@;
        self.members.insert(i, *user);
        proof {
            before.insert_ensures(i as int, *user);
            let after = self.members@;
            assert forall|a: int, b: int| 0 <= a < b < after.len() implies after[a].id < after[b].id by {
                if b < i {
                } else if b == i {
                } else if a < i {
                } else if a == i {
                    assert(after[b] == before[b - 1]);
                    if b - 1 > i {
                        assert(before[i as int].id < before[b - 1].id);
                    }
                } else {
                    assert(after[a] == before[a - 1]);
                    assert(after[b] == before[b - 1]);
                }
            }
            assert forall|x: Actor| after.contains(x) <==> before.contains(x) || x == *user by {
                if after.contains(x) {
                    let k = choose|k: int| 0 <= k < after.len() && after[k] == x;
                    if k < i {
                        assert(before[k] == x);
                    } else if k > i {
                        assert(before[k - 1] == x);
                    }
                }
                if before.contains(x) {
                    let k = choose|k: int| 0 <= k < before.len() && before[k] == x;
                    if k < i {
                        assert(after[k] == x);
                    } else {
                        assert(after[k + 1] == x);
                    }
                }
                if x == *user {
                    assert(after[i as int] == x);
                }
            }
            assert(after.to_set() =~= before.to_set().insert(*user));
        }
    }

    /// Removes `user` from the members; removing an absent member changes nothing.
    pub fn removemember(&mut self, user: &Actor)
        requires
            old(self).wf(),
        ensures
            final(self).wf(),
            final(self)@ == (EventView { members: old(self)@.members.remove(*user), ..old(self)@ }),
    {
        let n = self.members.len();
        let mut i: usize = 0;
        while i < n && self.members[i].id != user.id
            invariant
                n == self.members.len(),
                *self == *old(self),
                self.wf(),
                0 <= i <= n,
                forall|k: int| 0 <= k < i ==> self.members@[k].id != user.id,
            decreases n - i,
        {
            i = i + 1;
        }
        if i == n {
            proof {
                assert(!self.members@.contains(*user));
                assert(self.members@.to_set().remove(*user) =~= self.members@.to_set());
            }
            return;
        }
        let ghost before = self.members@;
        self.members.remove(i);
        proof {
            before.remove_ensures(i as int);
            let after = self.members@;
            assert(before[i as int] == *user);
            assert forall|a: int, b: int| 0 <= a < b < after.len() implies after[a].id < after[b].id by {
                if b < i {
                } else if a < i {
                    assert(after[b] == before[b + 1]);
                } else {
                    assert(after[a] == before[a + 1]);
                    assert(after[b] == before[b + 1]);
                }
            }
            assert forall|x: Actor| after.contains(x) <==> before.contains(x) && x != *user by {
                if after.contains(x) {
                    let k = choose|k: int| 0 <= k < after.len() && after[k] == x;
                    if k < i {
                        assert(before[k] == x);
                        assert(before[k].id < before[i as int].id);
                    } else {
                        assert(before[k + 1] == x);
                        assert(before[i as int].id < before[k + 1].id);
                    }
                }
                if before.contains(x) && x != *user {
                    let k = choose|k: int| 0 <= k < before.len() && before[k] == x;
                    if k < i {
                        assert(after[k] == x);
                    } else {
                        assert(k != i);
                        assert(after[k - 1] == x);
                    }
                }
            }
            assert(after.to_set() =~= before.to_set().remove(*user));
        }
    }

    /// The member listing: a line `"\n- <@id>"` per member, by ascending id,
    /// with `" (host)"` after the host's mention.
    pub fn getmembers(&self) -> (r: String)
        ensures
            r@ == listing(self.members@, self.host),
    {
        let mut out = String::new();
        let n = self.members.len();
        let mut i: usize = 0;
        proof {
            assert(self.members@.subrange(0, 0) =~= Seq::<Actor>::empty());
        }
        while i < n
            invariant
                n == self.members.len(),
                0 <= i <= n,
                out@ == listing(self.members@.subrange(0, i as int), self.host),
            decreases n - i,
        {
            let a = self.members[i];
            let ghost prior = out@;
            proof {
                reveal_strlit("\n- ");
                reveal_strlit(" (host)");
            }
            out.append("\n- ");
            push_mention(&mut out, a.id);
            if self.host == Some(a) {
                out.append(" (host)");
            }
            proof {
                let pre = self.members@.subrange(0, i as int + 1);
                assert(pre.drop_last() =~= self.members@.subrange(0, i as int));
                assert(pre.last() == a);
                assert(out@ =~= prior + member_line(a, self.host));
            }
            i = i + 1;
        }
        proof {
            assert(self.members@.subrange(0, n as int) =~= self.members@);
        }
        out
    }
}

} // verus!
