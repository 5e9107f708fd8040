//! Named accumulators of tracked work time. A project carries two
//! monotonically growing counters: seconds spent in focus phases and total
//! tracked seconds; focus time is a subset of total time. The storage layer
//! owns the canonical records; a session mutates one working copy and writes
//! it back wholesale at teardown.

use vstd::prelude::*;
use vstd::string::StringExecFns;

use crate::digits::{dec_digits, padded2, push_dec, push_padded2};

verus! {

/// One project record: a unique, non-empty name and the two counters.
#[derive(Debug, Clone)]
pub struct Project {
    pub name: String,
    pub focus_seconds: u32,
    pub total_seconds: u32,
}

impl Project {
    /// A record is well formed when its name is non-empty and its focus time
    /// does not exceed its total tracked time.
    pub open spec fn wf(self) -> bool {
        &&& self.name@.len() > 0
        &&& self.focus_seconds <= self.total_seconds
    }

    /// A fresh record with both counters at zero.
    pub fn new(name: String) -> (p: Self)
        ensures
            p == (Project { name, focus_seconds: 0, total_seconds: 0 }),
            name@.len() > 0 ==> p.wf(),
    {
        Self { name, focus_seconds: 0, total_seconds: 0 }
    }

    /// Resolution of a lookup by name: an existing record wins unchanged; a
    /// name never referenced before yields a fresh record with zeroed
    /// counters, which the caller persists at once.
    pub fn from_lookup(name: String, found: Option<Project>) -> (p: Project)
        ensures
            found matches Some(q) ==> p == q,
            found is None ==> p == (Project { name, focus_seconds: 0, total_seconds: 0 }),
    {
        match found {
            Some(q) => q,
            None => Project::new(name),
        }
    }

    pub fn get_name(&self) -> (r: &String)
        ensures
            r == self.name,
    {
        &self.name
    }

    pub fn get_focus_seconds(&self) -> (r: u32)
        ensures
            r == self.focus_seconds,
    {
        self.focus_seconds
    }

    pub fn set_focus_seconds(&mut self, seconds: u32)
        ensures
            *final(self) == (Project { focus_seconds: seconds, ..*old(self) }),
    {
        self.focus_seconds = seconds;
    }

    pub fn get_total_seconds(&self) -> (r: u32)
        ensures
            r == self.total_seconds,
    {
        self.total_seconds
    }

    pub fn set_total_seconds(&mut self, seconds: u32)
        ensures
            *final(self) == (Project { total_seconds: seconds, ..*old(self) }),
    {
        self.total_seconds = seconds;
    }
}

/// A counter of seconds as the project overview shows it: `H:MM:SS` style
/// with the hours field suppressed while it is zero, minutes padded to two
/// digits only when hours are shown.
pub open spec fn hms_spec(secs: nat) -> Seq<char> {
    if secs >= 3600 {
        dec_digits(secs / 3600) + "h "@ + padded2((secs % 3600) / 60) + "m "@ + padded2(secs % 60)
            + "s"@
    } else {
        dec_digits(secs / 60) + "m "@ + padded2(secs % 60) + "s"@
    }
}

/// Renders a second counter for the project overview table, hours suppressed
/// when zero: 3661 seconds come out as `1h 01m 01s`, 65 as `1m 05s`.
pub fn format_hms(secs: u32) -> (r: String)
    ensures
        r@ == hms_spec(secs as nat),
{
    let mut out = String::new();
    let hours = secs / 3600;
    let minutes = (secs % 3600) / 60;
    let seconds = secs % 60;
    if hours > 0 {
        push_dec(hours, &mut out);
        out.append("h ");
        push_padded2(minutes, &mut out);
        out.append("m ");
        push_padded2(seconds, &mut out);
        out.append("s");
    } else {
        push_dec(minutes, &mut out);
        out.append("m ");
        push_padded2(seconds, &mut out);
        out.append("s");
    }
    proof {
        assert(out@ =~= hms_spec(secs as nat));
    }
    out
}

} // verus!
