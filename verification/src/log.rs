//! The diagnostic log.

use vstd::prelude::*;
use vstd::string::*;

use std::path::PathBuf;
use std::time::{Duration, SystemTime, SystemTimeError};

use crate::paths::{answer_of, found_home_dir, log_dir_in, log_file};
use crate::text::{decimal_text, three_digits_text};

verus! {

/// An outside type: a moment of the system clock.
#[verifier::external_type_specification]
#[verifier::external_body]
pub struct ExSystemTime(std::time::SystemTime);

/// An outside type: the error for a moment that comes before another.
#[verifier::external_type_specification]
#[verifier::external_body]
pub struct ExSystemTimeError(std::time::SystemTimeError);

/// The time from the Unix epoch to `moment`, if it is not before the epoch.
pub uninterp spec fn elapsed_at(moment: SystemTime) -> Option<Duration>;

/// The length of a duration in nanoseconds.
pub uninterp spec fn nanoseconds(d: Duration) -> nat;

/// `SystemTime::now` gives the current time: nothing is claimed of it.
pub assume_specification[ SystemTime::now ]() -> (now: SystemTime)
;

/// The time from the Unix epoch to `moment`, by `SystemTime::duration_since`. It is
/// a function of the moment; there is none for a moment before the epoch.
#[verifier::external_body]
fn since_epoch(moment: SystemTime) -> (elapsed: Result<Duration, SystemTimeError>)
    ensures
        (match elapsed {
            Ok(d) => Some(d),
            Err(_) => None,
        }) == elapsed_at(moment),
{
    moment.duration_since(std::time::UNIX_EPOCH)
}

/// `Duration::as_secs` gives the whole seconds of a duration.
pub assume_specification[ Duration::as_secs ](d: &Duration) -> (secs: u64)
    ensures
        secs == nanoseconds(*d) / 1_000_000_000,
;

/// `Duration::subsec_millis` gives the whole milliseconds that are left behind the
/// whole seconds.
pub assume_specification[ Duration::subsec_millis ](d: &Duration) -> (millis: u32)
    ensures
        millis == nanoseconds(*d) % 1_000_000_000 / 1_000_000,
;

/// A line that is to be added to a file, with the directory that must exist for it.
#[derive(Debug)]
pub struct LogEntry {
    pub dir: PathBuf,
    pub path: PathBuf,
    pub line: String,
}

/// Seconds and milliseconds, the latter with three digits.
pub open spec fn timestamp_text(secs: u64, millis: u32) -> Seq<char> {
    crate::text::decimal(secs as nat) + "."@ + crate::text::padded_to_three(
        crate::text::decimal(millis as nat),
    )
}

/// A line of the log.
pub open spec fn line_text(stamp: Seq<char>, msg: Seq<char>) -> Seq<char> {
    "["@ + stamp + "] "@ + msg + "\n"@
}

/// How the log tells `moment`. A moment before the epoch counts as the epoch.
pub open spec fn stamp_at(moment: SystemTime) -> Seq<char> {
    match elapsed_at(moment) {
        Some(d) => timestamp_text(
            (nanoseconds(d) / 1_000_000_000) as u64,
            (nanoseconds(d) % 1_000_000_000 / 1_000_000) as u32,
        ),
        None => timestamp_text(0, 0),
    }
}

/// Whether `stamp` tells a time since the epoch.
pub open spec fn is_timestamp(stamp: Seq<char>) -> bool {
    exists|secs: u64, millis: u32|
        millis < 1000 && stamp == #[trigger] timestamp_text(secs, millis)
}

/// Seconds and milliseconds, the latter with three digits.
pub fn format_timestamp(secs: u64, millis: u32) -> (stamp: String)
    ensures
        stamp@ == timestamp_text(secs, millis),
{
    let mut stamp = decimal_text(secs);
    let fraction = three_digits_text(millis);
    stamp.append(".");
    stamp.append(fraction.as_str());
    stamp
}

/// How the log tells `moment`.
pub fn timestamp_at(moment: SystemTime) -> (stamp: String)
    ensures
        stamp@ == stamp_at(moment),
        is_timestamp(stamp@),
{
    match since_epoch(moment) {
        Ok(d) => format_timestamp(d.as_secs(), d.subsec_millis()),
        Err(_) => format_timestamp(0, 0),
    }
}

/// How the log tells the current time.
pub fn chrono_timestamp() -> (stamp: String)
    ensures
        exists|now: SystemTime|
            call_ensures(SystemTime::now, (), now) && stamp@ == #[trigger] stamp_at(now),
        is_timestamp(stamp@),
{
    timestamp_at(answer_of(SystemTime::now))
}

/// A line of the log.
pub fn log_line(stamp: &str, msg: &str) -> (line: String)
    ensures
        line@ == line_text(stamp@, msg@),
{
    let mut line = "[".to_owned();
    line.append(stamp);
    line.append("] ");
    line.append(msg);
    line.append("\n");
    line
}

/// The entry that tells `msg` at the time `stamp` in the log below `home`.
pub fn log_entry_in(home: Option<PathBuf>, stamp: &str, msg: &str) -> (entry: LogEntry)
    ensures
        entry.dir == crate::paths::log_dir_of(home),
        entry.path == crate::paths::log_file_of(entry.dir),
        entry.line@ == line_text(stamp@, msg@),
{
    let dir = log_dir_in(home);
    let path = log_file(&dir);
    LogEntry { dir, path, line: log_line(stamp, msg) }
}

/// The entry that tells `msg`, now, in the log of the user.
pub fn tlog(msg: &str) -> (entry: LogEntry)
    ensures
        exists|home: Option<PathBuf>|
            crate::paths::is_home_dir(home) && entry.dir == #[trigger] crate::paths::log_dir_of(
                home,
            ),
        entry.path == crate::paths::log_file_of(entry.dir),
        exists|now: SystemTime|
            call_ensures(SystemTime::now, (), now) && entry.line@ == line_text(
                #[trigger] stamp_at(now),
                msg@,
            ),
{
    let stamp = chrono_timestamp();
    log_entry_in(found_home_dir(), stamp.as_str(), msg)
}

/// The fraction of a timestamp always has three digits, so that the digits of
/// different stamps stand for the same units.
pub proof fn fraction_has_three_digits(secs: u64, millis: u32)
    requires
        millis < 1000,
    ensures
        timestamp_text(secs, millis).len() == crate::text::decimal(secs as nat).len() + 4,
{
    reveal_strlit(".");
    assert(crate::text::padded_to_three(crate::text::decimal(millis as nat)).len() == 3) by {
        reveal_with_fuel(crate::text::decimal, 3);
    }
}

/// A timestamp is the seconds in decimal, a point, and the milliseconds, below a thousand as
/// hundreds, tens and units; a line is the timestamp in brackets, the message, and the end of
/// the line.
pub proof fn lines_tell_time_and_message(secs: u64, millis: u32, stamp: Seq<char>, msg: Seq<char>)
    ensures
        millis < 1000 ==> timestamp_text(secs, millis) == crate::text::decimal(secs as nat) + "."@
            + seq![
            (48 + millis / 100) as char,
            (48 + millis / 10 % 10) as char,
            (48 + millis % 10) as char,
        ],
        millis >= 1000 ==> timestamp_text(secs, millis) == crate::text::decimal(secs as nat) + "."@
            + crate::text::decimal(millis as nat),
        line_text(stamp, msg) == "["@ + stamp + "] "@ + msg + "\n"@,
{
    crate::text::padding_shows_hundreds(millis as nat);
}

/// A moment is told by the whole seconds since the epoch and the whole milliseconds that are
/// left; a moment before the epoch is told as the epoch.
pub proof fn moments_are_told_since_the_epoch(moment: SystemTime, d: Duration, millis: u32)
    requires
        elapsed_at(moment) == Some(d) ==> nanoseconds(d) / 1_000_000_000 <= u64::MAX,
    ensures
        elapsed_at(moment) == Some(d) && millis == nanoseconds(d) / 1_000_000 % 1000
            ==> stamp_at(moment) == timestamp_text(
            (nanoseconds(d) / 1_000_000_000) as u64,
            millis,
        ),
        elapsed_at(moment) is None ==> stamp_at(moment) == timestamp_text(0, 0),
{
    let n = nanoseconds(d) as int;
    assert(n % 1_000_000_000 / 1_000_000 == n / 1_000_000 % 1000) by (nonlinear_arith);
}

} // verus!
