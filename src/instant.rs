//! Points in time and the parser that turns a user's text into one.
//!
//! Text is read as a local wall-clock time in the format [`TIMEFORMAT`]; the
//! machine's time zone then decides which real instant it denotes. A wall-clock
//! time that the zone maps to no instant, or to more than one, is rejected.
use vstd::prelude::*;

verus! {

/// The one accepted timestamp grammar: `YYYY-MM-DD HH:MM`.
pub const TIMEFORMAT: &'static str = "%Y-%m-%d %H:%M";

/// A point in time, in whole seconds since the Unix epoch (UTC).
#[derive(Clone, Copy, Debug, PartialEq, Eq, Structural, Hash)]
pub struct Instant {
    pub timestamp: i64,
}

/// How the local time zone maps a wall-clock time to real instants.
#[derive(Clone, Copy, Debug, PartialEq, Eq, Structural)]
pub enum LocalResolution {
    /// Exactly one instant.
    Single(Instant),
    /// Two instants, earliest first: the clock was turned back.
    Ambiguous(Instant, Instant),
    /// No instant: the clock jumped over this time.
    Missing,
}

/// Why a piece of text does not give one point in time.
#[derive(Clone, Copy, Debug, PartialEq, Eq, Structural)]
pub enum InstantError {
    /// The text does not match [`TIMEFORMAT`].
    Malformed,
    /// The text names a local time with no unique instant.
    Ambiguous,
}

#[verifier::external_type_specification]
#[verifier::external_body]
pub struct ExNaiveDateTime(chrono::NaiveDateTime);

/// Whether `NaiveDateTime::parse_from_str` accepts the text under [`TIMEFORMAT`].
pub uninterp spec fn wall_clock_parses(text: Seq<char>) -> bool;

/// Relies on chrono's `NaiveDateTime::parse_from_str` with [`TIMEFORMAT`]:
/// whether it succeeds depends on the text alone.
#[verifier::external_body]
fn parse_wall_clock(text: &str) -> (r: Option<chrono::NaiveDateTime>)
    ensures
        r is Some == wall_clock_parses(text@),
{
    chrono::NaiveDateTime::parse_from_str(text, TIMEFORMAT).ok()
}

/// Relies on chrono's `TimeZone::from_local_datetime` for `Local` and on
/// `DateTime::timestamp`. The answer depends on the machine's time zone, so
/// nothing is promised of it.
#[verifier::external_body]
fn resolve_local(naive: &chrono::NaiveDateTime) -> (r: LocalResolution) {
    match chrono::TimeZone::from_local_datetime(&chrono::Local, naive) {
        chrono::LocalResult::Single(t) => LocalResolution::Single(Instant { timestamp: t.timestamp() }),
        chrono::LocalResult::Ambiguous(a, b) => LocalResolution::Ambiguous(
            Instant { timestamp: a.timestamp() },
            Instant { timestamp: b.timestamp() },
        ),
        chrono::LocalResult::None => LocalResolution::Missing,
    }
}

/// The instant that a resolution gives, if it gives exactly one.
pub open spec fn resolved(res: LocalResolution) -> Result<Instant, InstantError> {
    match res {
        LocalResolution::Single(t) => Ok(t),
        _ => Err(InstantError::Ambiguous),
    }
}

/// Accepts a resolution only when it names exactly one instant; never picks
/// one of several, and never invents one for a skipped time.
pub fn instant_from(res: LocalResolution) -> (r: Result<Instant, InstantError>)
    ensures
        r == resolved(res),
{
    match res {
        LocalResolution::Single(t) => Ok(t),
        _ => Err(InstantError::Ambiguous),
    }
}

/// Parses `text` as a local wall-clock time in [`TIMEFORMAT`] and resolves it in
/// the machine's time zone.
///
/// Text that does not match the format gives `Malformed`. Otherwise the result
/// is `Ok` or `Ambiguous`, as the time zone decides.
pub fn parse_instant(text: &str) -> (r: Result<Instant, InstantError>)
    ensures
        !wall_clock_parses(text@) <==> r == Err::<Instant, InstantError>(InstantError::Malformed),
{
    match parse_wall_clock(text) {
        None => Err(InstantError::Malformed),
        Some(naive) => instant_from(resolve_local(&naive)),
    }
}

} // verus!
