use gathering::event::{Actor, Changes, Error, Event};
use gathering::instant::{instant_from, parse_instant, Instant, InstantError, LocalResolution};
use gathering::permission::{is_privileged, RoleCheck};
use gathering::store::{EventStore, Mutation};

const ALICE: Actor = Actor { id: 1 };
const BOB: Actor = Actor { id: 2 };
const CAROL: Actor = Actor { id: 3 };
const DAVE: Actor = Actor { id: 4 };

fn ids(e: &Event) -> Vec<u64> {
    e.members.iter().map(|a| a.id).collect()
}

fn fixed(title: &str, start: i64, end: Option<i64>, host: Option<Actor>, creator: Actor) -> Event {
    Event::from_parsed(
        title.to_string(),
        "about".to_string(),
        Ok(Instant { timestamp: start }),
        end.map(|t| Ok(Instant { timestamp: t })),
        host,
        "Hall".to_string(),
        &creator,
    )
    .unwrap()
}

#[test]
fn create_replaces_any_event() {
    let mut store = EventStore::new();
    store.create(fixed("First", 100, None, Some(ALICE), ALICE));
    store.join(CAROL).unwrap();
    let e = store.create(fixed("Second", 200, None, None, BOB));
    assert_eq!(e.title, "Second");
    let now = store.read().unwrap();
    assert_eq!(now.title, "Second");
    assert_eq!(now.creator, BOB);
    assert!(now.members.is_empty());
    assert_eq!(now.start, Instant { timestamp: 200 });
}

#[test]
fn repeated_join_and_leave_are_idempotent() {
    let mut store = EventStore::new();
    store.create(fixed("E", 0, None, None, ALICE));
    let once = store.join(CAROL).unwrap();
    let twice = store.join(CAROL).unwrap();
    assert_eq!(ids(&once), vec![3]);
    assert_eq!(ids(&twice), vec![3]);
    let gone = store.leave(CAROL).unwrap();
    let again = store.leave(CAROL).unwrap();
    assert!(gone.members.is_empty());
    assert!(again.members.is_empty());
}

#[test]
fn host_is_seeded_and_marked() {
    let e = fixed("E", 0, None, Some(ALICE), BOB);
    assert_eq!(ids(&e), vec![1]);
    assert_eq!(e.getmembers(), "\n- <@1> (host)");
}

#[test]
fn listing_marks_only_the_host_and_ignores_join_order() {
    let mut a = fixed("E", 0, None, Some(CAROL), BOB);
    a.addmember(&DAVE);
    a.addmember(&ALICE);
    let mut b = fixed("E", 0, None, Some(CAROL), BOB);
    b.addmember(&ALICE);
    b.addmember(&DAVE);
    assert_eq!(a.getmembers(), "\n- <@1>\n- <@3> (host)\n- <@4>");
    assert_eq!(a.getmembers(), b.getmembers());
}

#[test]
fn each_mutation_returns_its_own_commit() {
    let mut store = EventStore::new();
    store.create(fixed("E", 0, None, None, ALICE));
    let after_join = store.join(BOB).unwrap();
    let after_second = store.join(CAROL).unwrap();
    assert_eq!(ids(&after_join), vec![2]);
    assert_eq!(ids(&after_second), vec![2, 3]);
    let snap = store.mutate_if_present(Mutation::Leave(BOB)).unwrap();
    assert_eq!(ids(&snap), ids(&store.read().unwrap()));
    assert_eq!(ids(&snap), vec![3]);
}

#[test]
fn creator_may_cancel_and_remove_without_role() {
    let mut store = EventStore::new();
    store.create(fixed("E", 0, None, Some(ALICE), BOB));
    store.join(CAROL).unwrap();
    let e = store.remove(RoleCheck::NotConfigured, BOB, CAROL).unwrap();
    assert_eq!(ids(&e), vec![1]);
    let gone = store.cancel(RoleCheck::NotConfigured, BOB).unwrap();
    assert_eq!(gone.title, "E");
    assert!(store.read().is_none());
}

#[test]
fn others_are_refused_without_role() {
    let mut store = EventStore::new();
    store.create(fixed("E", 0, None, Some(ALICE), BOB));
    assert!(matches!(store.remove(RoleCheck::NotConfigured, ALICE, ALICE), Err(Error::Unauthorized)));
    assert!(matches!(store.cancel(RoleCheck::NotConfigured, ALICE), Err(Error::Unauthorized)));
    assert!(matches!(store.cancel(RoleCheck::Failed, ALICE), Err(Error::Unauthorized)));
    assert_eq!(ids(&store.read().unwrap()), vec![1]);
}

#[test]
fn trusted_role_grants_privilege() {
    let mut store = EventStore::new();
    store.create(fixed("E", 0, None, Some(ALICE), BOB));
    let e = store.remove(RoleCheck::Answered(true), DAVE, ALICE).unwrap();
    assert!(e.members.is_empty());
    assert!(store.cancel(RoleCheck::Answered(true), DAVE).is_ok());
    assert!(store.read().is_none());
}

#[test]
fn privilege_rule() {
    let e = fixed("E", 0, None, None, BOB);
    assert!(is_privileged(RoleCheck::NotConfigured, &BOB, Some(&e)));
    assert!(!is_privileged(RoleCheck::NotConfigured, &DAVE, Some(&e)));
    assert!(!is_privileged(RoleCheck::Answered(false), &DAVE, Some(&e)));
    assert!(!is_privileged(RoleCheck::Failed, &DAVE, Some(&e)));
    assert!(is_privileged(RoleCheck::Answered(true), &DAVE, Some(&e)));
    assert!(!is_privileged(RoleCheck::NotConfigured, &BOB, None));
    assert!(is_privileged(RoleCheck::Answered(true), &BOB, None));
}

#[test]
fn ambiguous_or_missing_local_time_is_rejected() {
    let a = Instant { timestamp: 10 };
    let b = Instant { timestamp: 3610 };
    assert_eq!(instant_from(LocalResolution::Single(a)), Ok(a));
    assert_eq!(instant_from(LocalResolution::Ambiguous(a, b)), Err(InstantError::Ambiguous));
    assert_eq!(instant_from(LocalResolution::Missing), Err(InstantError::Ambiguous));
    let r = Event::from_parsed(
        "E".to_string(),
        "d".to_string(),
        Err(InstantError::Ambiguous),
        None,
        None,
        "L".to_string(),
        &ALICE,
    );
    assert!(matches!(r, Err(Error::Ambiguous)));
    let r = Event::from_parsed(
        "E".to_string(),
        "d".to_string(),
        Ok(a),
        Some(Err(InstantError::Ambiguous)),
        None,
        "L".to_string(),
        &ALICE,
    );
    assert!(matches!(r, Err(Error::Ambiguous)));
    let r = Changes::from_parsed(None, None, Some(Err(InstantError::Ambiguous)), None, None, None, None);
    assert!(matches!(r, Err(Error::Ambiguous)));
}

#[test]
fn parse_errors_come_start_first() {
    let r = Event::from_parsed(
        "E".to_string(),
        "d".to_string(),
        Err(InstantError::Malformed),
        Some(Err(InstantError::Ambiguous)),
        None,
        "L".to_string(),
        &ALICE,
    );
    assert!(matches!(r, Err(Error::BadStart)));
    let r = Event::from_parsed(
        "E".to_string(),
        "d".to_string(),
        Ok(Instant { timestamp: 0 }),
        Some(Err(InstantError::Malformed)),
        None,
        "L".to_string(),
        &ALICE,
    );
    assert!(matches!(r, Err(Error::BadEnd)));
}

#[test]
fn new_rejects_malformed_text() {
    let r = Event::new(
        "E".to_string(),
        "d".to_string(),
        "tomorrow".to_string(),
        None,
        None,
        "L".to_string(),
        &ALICE,
    );
    assert!(matches!(r, Err(Error::BadStart)));
    let r = Event::new(
        "E".to_string(),
        "d".to_string(),
        "2024-11-02 19:00".to_string(),
        Some("2024-13-40 25:00".to_string()),
        None,
        "L".to_string(),
        &ALICE,
    );
    assert!(matches!(r, Err(Error::BadEnd)));
}

#[test]
fn parse_reads_wall_clock_text() {
    let a = parse_instant("2024-11-02 18:00").unwrap();
    let b = parse_instant("2024-11-02 19:30").unwrap();
    assert_eq!(b.timestamp - a.timestamp, 5400);
    assert_eq!(parse_instant("2024-11-02"), Err(InstantError::Malformed));
    assert_eq!(parse_instant(""), Err(InstantError::Malformed));
    assert_eq!(parse_instant("2024-02-30 10:00"), Err(InstantError::Malformed));
}

#[test]
fn new_keeps_the_order_of_start_and_end() {
    let e = Event::new(
        "E".to_string(),
        "d".to_string(),
        "2024-11-02 19:00".to_string(),
        Some("2024-11-02 21:00".to_string()),
        None,
        "L".to_string(),
        &ALICE,
    )
    .unwrap();
    assert_eq!(e.end.unwrap().timestamp - e.start.timestamp, 7200);
    assert!(e.members.is_empty());
    assert_eq!(e.host, None);
}

#[test]
fn update_applies_all_changes() {
    let mut store = EventStore::new();
    store.create(fixed("E", 0, Some(60), Some(ALICE), BOB));
    store.join(CAROL).unwrap();
    let c = Changes::parse(
        Some("New".to_string()),
        Some("more".to_string()),
        None,
        Some("None".to_string()),
        Some("Pier".to_string()),
        Some(CAROL),
        None,
    )
    .unwrap();
    let e = store.update(c).unwrap();
    assert_eq!(e.title, "New");
    assert_eq!(e.description, "more");
    assert_eq!(e.location, "Pier");
    assert_eq!(e.end, None);
    assert_eq!(e.start, Instant { timestamp: 0 });
    assert_eq!(e.host, Some(CAROL));
    assert_eq!(ids(&e), vec![1, 3]);
    assert_eq!(e.creator, BOB);
}

#[test]
fn removehost_wins_over_host() {
    let c = Changes::parse(None, None, None, None, None, Some(DAVE), Some(true)).unwrap();
    assert_eq!(c.host, Some(None));
    let c = Changes::parse(None, None, None, None, None, Some(DAVE), Some(false)).unwrap();
    assert_eq!(c.host, Some(Some(DAVE)));
    let c = Changes::parse(None, None, None, None, None, None, None).unwrap();
    assert_eq!(c.host, None);
    assert_eq!(c.end, None);
    assert_eq!(c.start, None);
}

#[test]
fn update_end_parse_error() {
    let r = Changes::parse(None, None, None, Some("later".to_string()), None, None, None);
    assert!(matches!(r, Err(Error::BadEnd)));
    let c = Changes::parse(None, None, Some("2024-11-02 19:00".to_string()), None, None, None, None).unwrap();
    assert!(c.start.is_some());
}

#[test]
fn empty_slot_reports_no_event() {
    let mut store = EventStore::new();
    assert!(store.read().is_none());
    assert!(matches!(store.join(ALICE), Err(Error::NoActiveEvent)));
    assert!(matches!(store.leave(ALICE), Err(Error::NoActiveEvent)));
    let c = Changes::parse(Some("T".to_string()), None, None, None, None, None, None).unwrap();
    assert!(matches!(store.update(c), Err(Error::NoActiveEvent)));
    assert!(matches!(store.remove(RoleCheck::Answered(true), ALICE, BOB), Err(Error::NoActiveEvent)));
    assert!(matches!(store.cancel(RoleCheck::Answered(true), ALICE), Err(Error::NoActiveEvent)));
    assert!(matches!(store.cancel(RoleCheck::NotConfigured, ALICE), Err(Error::Unauthorized)));
    assert!(store.mutate_if_present(Mutation::Join(ALICE)).is_none());
    assert!(store.clear().is_none());
    assert!(store.read().is_none());
}

#[test]
fn clear_returns_the_discarded_event() {
    let mut store = EventStore::new();
    store.create(fixed("E", 5, None, None, BOB));
    let gone = store.clear().unwrap();
    assert_eq!(gone.start, Instant { timestamp: 5 });
    assert!(store.read().is_none());
}

#[test]
fn announcement_text() {
    let mut e = fixed("Game Night", 1730574000, Some(1730581200), Some(ALICE), BOB);
    e.addmember(&CAROL);
    assert_eq!(
        e.to_string(),
        "# Game Night\n## about\n**Starts**: <t:1730574000:R> (<t:1730574000:F>)\n\
         **Ends**: <t:1730581200:R> (<t:1730581200:F>)\n**Location**: Hall (<@1>)\n\
         **Members** (2): \n- <@1> (host)\n- <@3>"
    );
}

#[test]
fn announcement_text_without_end_or_host() {
    let e = fixed("T", -90, None, None, BOB);
    assert_eq!(
        e.to_string(),
        "# T\n## about\n**Starts**: <t:-90:R> (<t:-90:F>)\n\n**Location**: Hall \n**Members** (0): "
    );
}

#[test]
fn snapshot_is_independent() {
    let mut e = fixed("E", 0, None, Some(ALICE), BOB);
    let copy = e.snapshot();
    e.addmember(&CAROL);
    e.removemember(&ALICE);
    assert_eq!(ids(&copy), vec![1]);
    assert_eq!(ids(&e), vec![3]);
    e.removemember(&DAVE);
    assert_eq!(ids(&e), vec![3]);
}
