//! Events the core raises for its observers: the change notification the
//! control surface listens to, and the structured log line the host shell
//! displays.

use vstd::prelude::*;

verus! {

/// Notification that the running flag or the client list changed.
pub enum AppEvent {
    UpdateData,
}

/// One structured log line: timestamp, level, target, and message text.
pub struct LogEvent {
    pub time: String,
    pub level: String,
    pub target: String,
    pub message: String,
}

/// The timestamp a log line carries: calendar date and time of day joined
/// by a single 'T'.
pub fn joined_timestamp(date: &str, time: &str) -> (r: String)
    ensures
        r@ == date@ + seq!['T'] + time@,
{
    let mut s = String::from_str(date);
    s.append("T");
    s.append(time);
    proof {
        reveal_strlit("T");
        assert("T"@ =~= seq!['T']);
        assert(s@ =~= date@ + seq!['T'] + time@);
    }
    s
}

} // verus!
