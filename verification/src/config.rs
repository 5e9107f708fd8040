//! User-tunable durations of the timer: focus, break and long-break lengths
//! in minutes, and the number of focus cycles before a long break.
//!
//! Exactly one config record exists per installation; the storage layer loads
//! it at startup, command-line flags may override single fields for the run,
//! and the record is written back only when a flag changed it.

use vstd::prelude::*;

verus! {

/// The four user-tunable durations, all in whole minutes except `cycles`,
/// which counts focus phases per long-break round.
#[derive(Debug, Clone)]
pub struct Config {
    pub id: i64,
    pub focus: u32,
    pub break_time: u32,
    pub long_break: u32,
    pub cycles: u32,
}

impl Config {
    /// The single config record, under the fixed row id of the singleton.
    pub fn new(focus: u32, break_time: u32, long_break: u32, cycles: u32) -> (c: Self)
        ensures
            c.id == 1,
            c.focus == focus,
            c.break_time == break_time,
            c.long_break == long_break,
            c.cycles == cycles,
    {
        Self { id: 1, focus, break_time, long_break, cycles }
    }

    /// Recovery for a malformed or missing stored record: fall back to the
    /// seeded defaults of 25/5/15/4.
    pub fn or_default(found: Option<Config>) -> (c: Config)
        ensures
            found matches Some(f) ==> c == f,
            found is None ==> c == (Config {
                id: 1,
                focus: 25,
                break_time: 5,
                long_break: 15,
                cycles: 4,
            }),
    {
        match found {
            Some(f) => f,
            None => Config::new(25, 5, 15, 4),
        }
    }

    /// Applies the optional command-line overrides to the loaded config and
    /// reports whether any field changed hands, i.e. whether the record has
    /// to be written back.
    pub fn apply_overrides(
        &mut self,
        focus: Option<u32>,
        break_time: Option<u32>,
        long_break: Option<u32>,
        cycles: Option<u32>,
    ) -> (changed: bool)
        ensures
            final(self).id == old(self).id,
            final(self).focus == (if focus is Some { focus->0 } else { old(self).focus }),
            final(self).break_time == (if break_time is Some { break_time->0 } else { old(self).break_time }),
            final(self).long_break == (if long_break is Some { long_break->0 } else { old(self).long_break }),
            final(self).cycles == (if cycles is Some { cycles->0 } else { old(self).cycles }),
            changed == (focus is Some || break_time is Some || long_break is Some
                || cycles is Some),
    {
        let mut changed = false;
        if let Some(f) = focus {
            self.focus = f;
            changed = true;
        }
        if let Some(b) = break_time {
            self.break_time = b;
            changed = true;
        }
        if let Some(l) = long_break {
            self.long_break = l;
            changed = true;
        }
        if let Some(n) = cycles {
            self.cycles = n;
            changed = true;
        }
        changed
    }

    pub fn get_focus(&self) -> (r: u32)
        ensures
            r == self.focus,
    {
        self.focus
    }

    pub fn get_break_time(&self) -> (r: u32)
        ensures
            r == self.break_time,
    {
        self.break_time
    }

    pub fn get_long_break(&self) -> (r: u32)
        ensures
            r == self.long_break,
    {
        self.long_break
    }

    pub fn get_cycles(&self) -> (r: u32)
        ensures
            r == self.cycles,
    {
        self.cycles
    }

    pub fn set_focus(&mut self, focus: u32)
        ensures
            *final(self) == (Config { focus, ..*old(self) }),
    {
        self.focus = focus;
    }

    pub fn set_break_time(&mut self, break_time: u32)
        ensures
            *final(self) == (Config { break_time, ..*old(self) }),
    {
        self.break_time = break_time;
    }

    pub fn set_long_break(&mut self, long_break: u32)
        ensures
            *final(self) == (Config { long_break, ..*old(self) }),
    {
        self.long_break = long_break;
    }

    pub fn set_cycles(&mut self, cycles: u32)
        ensures
            *final(self) == (Config { cycles, ..*old(self) }),
    {
        self.cycles = cycles;
    }
}

} // verus!
