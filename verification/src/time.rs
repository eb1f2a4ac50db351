//! Clock readings and how the dashboard words them: the time since start, the
//! age of a record, and the moment of a status message.

use crate::text::{append_decimal, append_two_digits, decimal, two_digits};
use std::time::{Instant, SystemTime};
use vstd::prelude::*;

verus! {

#[verifier::external_type_specification]
#[verifier::external_body]
pub struct ExInstant(std::time::Instant);

#[verifier::external_type_specification]
#[verifier::external_body]
pub struct ExSystemTime(std::time::SystemTime);

/// What the clocks read at one tick.
#[derive(Clone, Copy, Debug)]
pub struct Clock {
    /// Whole seconds since the dashboard started.
    pub uptime: u64,
    /// Whole seconds from the epoch to now; absent while the system clock
    /// reads a moment before the epoch.
    pub now: Option<u64>,
}

/// A clock reading in numbers.
pub struct ClockView {
    pub uptime: nat,
    pub now: Option<nat>,
}

/// A reading of the system clock as a number.
pub open spec fn reading(now: Option<u64>) -> Option<nat> {
    match now {
        Some(t) => Some(t as nat),
        None => None,
    }
}

impl View for Clock {
    type V = ClockView;

    open spec fn view(&self) -> ClockView {
        ClockView {
            uptime: self.uptime as nat,
            now: reading(self.now),
        }
    }
}

/// The largest timestamp that counts as valid. The system clock of a Unix
/// machine counts its seconds in a signed number of 64 bits; the dashboard
/// holds every machine to that range and does not ask the machine's own
/// clock type, so that a timestamp reads the same wherever it is shown. On a
/// machine whose clock ends earlier, a timestamp between the two ends is
/// still worded by its age.
pub const LAST_TIMESTAMP: u64 = 9_223_372_036_854_775_807;

pub const INVALID_TIMESTAMP: &'static str = "Invalid timestamp";

pub const IN_THE_FUTURE: &'static str = "Time is in the future";

/// The pattern in which the moment of a status message is printed.
pub const MOMENT_PATTERN: &'static str = "%Y-%m-%d %H:%M:%S UTC";

/// The time since start as hours, minutes and seconds, each in at least two
/// digits.
pub open spec fn uptime_text(secs: nat) -> Seq<char> {
    two_digits(secs / 3600) + seq![':'] + two_digits((secs % 3600) / 60) + seq![':'] + two_digits(
        secs % 60,
    )
}

/// How long ago the timestamp `epoch` was when the clock read `now`: whole
/// hours from an hour on, whole minutes above one minute, else seconds.
pub open spec fn relative_age(epoch: nat, now: Option<nat>) -> Seq<char> {
    if epoch > LAST_TIMESTAMP {
        INVALID_TIMESTAMP@
    } else if now is None || epoch > now->0 {
        IN_THE_FUTURE@
    } else {
        let elapsed = (now->0 - epoch) as nat;
        if elapsed >= 3600 {
            decimal(elapsed / 3600) + seq!['h']
        } else if elapsed > 60 {
            decimal(elapsed / 60) + seq!['m']
        } else {
            decimal(elapsed) + seq!['s']
        }
    }
}

/// What chrono prints for the moment `timestamp` seconds after the epoch, in
/// UTC and under `pattern`; none where chrono has no such moment or cannot
/// print it under the pattern.
pub uninterp spec fn utc_text(timestamp: int, pattern: Seq<char>) -> Option<Seq<char>>;

/// The moment of a status message as the dashboard shows it.
pub open spec fn moment_text(timestamp: int) -> Seq<char> {
    match utc_text(timestamp, MOMENT_PATTERN@) {
        Some(text) => text,
        None => INVALID_TIMESTAMP@,
    }
}

/// Reads the system clock with `SystemTime::now`. Nothing is claimed of the
/// reading.
#[verifier::external_body]
fn system_now() -> SystemTime {
    SystemTime::now()
}

/// Measures `moment` from `UNIX_EPOCH` with `SystemTime::duration_since`, in
/// whole seconds; none when the moment lies before the epoch. Nothing is
/// claimed of the result: what a `SystemTime` holds is hidden.
#[verifier::external_body]
fn seconds_since_epoch(moment: &SystemTime) -> Option<u64> {
    moment.duration_since(std::time::UNIX_EPOCH).ok().map(|d| d.as_secs())
}

/// Measures the time since `start` with `Instant::elapsed`, in whole seconds.
/// Nothing is claimed of the result.
#[verifier::external_body]
fn seconds_since(start: &Instant) -> u64 {
    start.elapsed().as_secs()
}

/// Prints a moment through chrono: `DateTime::from_timestamp` makes the
/// moment in UTC, `DateTime::format` and `DelayedFormat::write_to` print it
/// under `pattern`. The result is a function of the two arguments alone, and
/// is absent where either step fails.
#[verifier::external_body]
fn format_utc(timestamp: i64, pattern: &str) -> (text: Option<String>)
    ensures
        match text {
            Some(t) => utc_text(timestamp as int, pattern@) == Some(t@),
            None => utc_text(timestamp as int, pattern@) is None,
        },
{
    let moment = chrono::DateTime::from_timestamp(timestamp, 0)?;
    let mut text = String::new();
    moment.format(pattern).write_to(&mut text).ok()?;
    Some(text)
}

impl Clock {
    /// Reads both clocks: the time since `start`, and the system clock.
    pub fn read(start: &Instant) -> Clock {
        let now = system_now();
        Clock { uptime: seconds_since(start), now: seconds_since_epoch(&now) }
    }
}

/// Appends the time since start.
pub fn append_uptime(out: &mut String, secs: u64)
    ensures
        final(out)@ == old(out)@ + uptime_text(secs as nat),
{
    proof {
        reveal_strlit(":");
    }
    append_two_digits(out, secs / 3600);
    out.append(":");
    append_two_digits(out, (secs % 3600) / 60);
    out.append(":");
    append_two_digits(out, secs % 60);
    assert(out@ =~= old(out)@ + uptime_text(secs as nat));
}

/// The age of the timestamp `epoch` at the reading `now`.
pub fn relative_age_text(epoch: u64, now: Option<u64>) -> (age: String)
    ensures
        age@ == relative_age(epoch as nat, reading(now)),
{
    if epoch > LAST_TIMESTAMP {
        return String::from_str(INVALID_TIMESTAMP);
    }
    match now {
        None => String::from_str(IN_THE_FUTURE),
        Some(t) => {
            if epoch > t {
                return String::from_str(IN_THE_FUTURE);
            }
            let elapsed = t - epoch;
            let mut age = String::new();
            proof {
                reveal_strlit("h");
                reveal_strlit("m");
                reveal_strlit("s");
            }
            if elapsed >= 3600 {
                append_decimal(&mut age, elapsed / 3600);
                age.append("h");
                assert(age@ =~= decimal((elapsed / 3600) as nat) + seq!['h']);
            } else if elapsed > 60 {
                append_decimal(&mut age, elapsed / 60);
                age.append("m");
                assert(age@ =~= decimal((elapsed / 60) as nat) + seq!['m']);
            } else {
                append_decimal(&mut age, elapsed);
                age.append("s");
                assert(age@ =~= decimal(elapsed as nat) + seq!['s']);
            }
            age
        },
    }
}

/// The age of the timestamp `epoch` by the system clock, read now.
pub fn epoch_to_string(epoch: u64) -> (age: String)
    ensures
        exists|now: Option<u64>| age@ == relative_age(epoch as nat, reading(now)),
{
    let moment = system_now();
    let now = seconds_since_epoch(&moment);
    let age = relative_age_text(epoch, now);
    assert(age@ == relative_age(epoch as nat, reading(now)));
    age
}

/// The moment of a status message as the dashboard shows it.
pub fn moment_label(timestamp: i64) -> (label: String)
    ensures
        label@ == moment_text(timestamp as int),
{
    match format_utc(timestamp, MOMENT_PATTERN) {
        Some(text) => text,
        None => String::from_str(INVALID_TIMESTAMP),
    }
}

} // verus!
