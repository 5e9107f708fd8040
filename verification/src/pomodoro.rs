//! The session state machine: a cyclic three-phase timer driven by one tick
//! per elapsed second while running. Completing a focus phase leads to a
//! break, or to the long break once the last cycle's focus phase completes;
//! completing the long break starts the whole round over. Every running tick
//! books one second into the active project's ledger counters.
//!
//! The machine itself is pure: the caller owns the wall clock and calls
//! `tick` exactly once per elapsed second, and it owns the notification
//! side effect, which it fires exactly when `tick` reports a phase
//! completion.

use vstd::prelude::*;
use vstd::string::StrSliceExecFns;
use vstd::string::StringExecFns;

use crate::digits::{dec_digits, padded2, push_dec, push_padded2};
use crate::project::Project;
use crate::theme::{Base16, Theme};

verus! {

/// The three phases of the timer.
#[derive(Debug, Clone, Copy, PartialEq, Eq, Structural)]
pub enum Mode {
    Focus,
    Break,
    LongBreak,
}

/// The running session: the configured durations (minutes), the active
/// project's working copy, and the live countdown state.
#[derive(Debug, Clone)]
pub struct Pomodoro {
    pub mode: Mode,
    pub focus: u32,
    pub break_time: u32,
    pub long_break: u32,
    pub cycles: u32,
    pub project: Project,
    pub current_cycle: u32,
    pub remaining_secs: u32,
    pub running: bool,
    pub total_seconds: u32,
}

/// The phase transition table. Completing focus in the last cycle enters the
/// long break, in any earlier cycle the short break; completing a short
/// break starts the next cycle's focus phase; completing the long break
/// starts a fresh round at cycle 1. The countdown is reloaded with the
/// target phase's configured duration; everything else is untouched.
pub open spec fn next_spec(s: Pomodoro) -> Pomodoro {
    match s.mode {
        Mode::Focus => if s.current_cycle == s.cycles {
            Pomodoro { mode: Mode::LongBreak, remaining_secs: (s.long_break * 60) as u32, ..s }
        } else {
            Pomodoro { mode: Mode::Break, remaining_secs: (s.break_time * 60) as u32, ..s }
        },
        Mode::Break => Pomodoro {
            mode: Mode::Focus,
            current_cycle: (s.current_cycle + 1) as u32,
            remaining_secs: (s.focus * 60) as u32,
            ..s
        },
        Mode::LongBreak => Pomodoro {
            mode: Mode::Focus,
            current_cycle: 1,
            remaining_secs: (s.focus * 60) as u32,
            ..s
        },
    }
}

/// Whether a tick of `s` completes a phase and so owes the caller the
/// notification side effect. A skip never does: it advances the phase
/// without passing through here.
pub open spec fn tick_notifies(s: Pomodoro) -> bool {
    s.running && s.remaining_secs == 0
}

/// One tick of the machine. Paused: nothing changes. Running with time on
/// the clock: the countdown loses one second, the session total and the
/// project's total gain one, and in a focus phase the project's focus
/// counter gains one as well. Running at zero: the phase advances.
pub open spec fn tick_spec(s: Pomodoro) -> Pomodoro {
    if !s.running {
        s
    } else if s.remaining_secs > 0 {
        Pomodoro {
            remaining_secs: (s.remaining_secs - 1) as u32,
            total_seconds: (s.total_seconds + 1) as u32,
            project: Project {
                total_seconds: (s.project.total_seconds + 1) as u32,
                focus_seconds: if s.mode is Focus {
                    (s.project.focus_seconds + 1) as u32
                } else {
                    s.project.focus_seconds
                },
                ..s.project
            },
            ..s
        }
    } else {
        next_spec(s)
    }
}

/// `k` ticks in a row.
pub open spec fn ticks(s: Pomodoro, k: nat) -> Pomodoro
    decreases k,
{
    if k == 0 {
        s
    } else {
        tick_spec(ticks(s, (k - 1) as nat))
    }
}

/// `k` pairs of phase completions: focus to break and back.
pub open spec fn round_trips(s: Pomodoro, k: nat) -> Pomodoro
    decreases k,
{
    if k == 0 {
        s
    } else {
        next_spec(next_spec(round_trips(s, (k - 1) as nat)))
    }
}

impl Pomodoro {
    /// Well-formedness of a session: the configured durations are positive
    /// and small enough that their second counts fit the counters, the cycle
    /// counter is within its round, a break phase still has a cycle to go
    /// (the long break takes over at the last one), and the project copy is
    /// itself well formed.
    pub open spec fn wf(self) -> bool {
        &&& 1 <= self.focus
        &&& self.focus * 60 <= u32::MAX
        &&& 1 <= self.break_time
        &&& self.break_time * 60 <= u32::MAX
        &&& 1 <= self.long_break
        &&& self.long_break * 60 <= u32::MAX
        &&& 1 <= self.cycles
        &&& 1 <= self.current_cycle <= self.cycles
        &&& (self.mode is Break ==> self.current_cycle < self.cycles)
        &&& self.project.wf()
    }

    /// A fresh session: focus phase of cycle 1, paused, with the full focus
    /// duration on the clock and nothing booked yet.
    pub fn new(focus: u32, break_time: u32, long_break: u32, cycles: u32, project: Project) -> (s:
        Self)
        requires
            1 <= focus,
            focus * 60 <= u32::MAX,
            1 <= break_time,
            break_time * 60 <= u32::MAX,
            1 <= long_break,
            long_break * 60 <= u32::MAX,
            1 <= cycles,
            project.wf(),
        ensures
            s == (Pomodoro {
                mode: Mode::Focus,
                focus,
                break_time,
                long_break,
                cycles,
                project,
                current_cycle: 1,
                remaining_secs: (focus * 60) as u32,
                running: false,
                total_seconds: 0,
            }),
            s.wf(),
    {
        Self {
            mode: Mode::Focus,
            focus,
            break_time,
            long_break,
            cycles,
            project,
            current_cycle: 1,
            remaining_secs: focus * 60,
            running: false,
            total_seconds: 0,
        }
    }

    /// One tick, to be called once per elapsed wall-clock second. Returns
    /// whether a phase just completed, i.e. whether the caller owes the
    /// notification side effect. Pausing makes this a no-op.
    pub fn tick(&mut self) -> (notify: bool)
        requires
            old(self).wf(),
            old(self).running && old(self).remaining_secs > 0 ==> old(self).total_seconds
                < u32::MAX && old(self).project.total_seconds < u32::MAX,
        ensures
            *final(self) == tick_spec(*old(self)),
            notify == tick_notifies(*old(self)),
            final(self).wf(),
    {
        if self.running && self.remaining_secs > 0 {
            self.remaining_secs = self.remaining_secs - 1;
            self.total_seconds = self.total_seconds + 1;
            let t = self.project.get_total_seconds();
            self.project.set_total_seconds(t + 1);
            if self.mode == Mode::Focus {
                let f = self.project.get_focus_seconds();
                self.project.set_focus_seconds(f + 1);
            }
            false
        } else if self.running {
            self.next();
            true
        } else {
            false
        }
    }

    /// Forces the session back to a paused focus phase at cycle 1 with the
    /// full focus duration on the clock. Project counters and the session
    /// total stay as they are.
    pub fn reset(&mut self)
        requires
            old(self).wf(),
        ensures
            *final(self) == (Pomodoro {
                mode: Mode::Focus,
                current_cycle: 1,
                remaining_secs: (old(self).focus * 60) as u32,
                running: false,
                ..*old(self)
            }),
            final(self).wf(),
    {
        self.current_cycle = 1;
        self.mode = Mode::Focus;
        self.remaining_secs = self.focus * 60;
        self.running = false;
    }

    /// Advances the phase along the transition table. This also serves the
    /// skip command: a skip comes straight here and thus never raises the
    /// notification, which only `tick` reports on a natural completion.
    pub fn next(&mut self)
        requires
            old(self).wf(),
        ensures
            *final(self) == next_spec(*old(self)),
            final(self).wf(),
    {
        match self.mode {
            Mode::Focus => {
                if self.current_cycle == self.cycles {
                    self.mode = Mode::LongBreak;
                    self.remaining_secs = self.long_break * 60;
                } else {
                    self.mode = Mode::Break;
                    self.remaining_secs = self.break_time * 60;
                }
            },
            Mode::Break => {
                self.current_cycle = self.current_cycle + 1;
                self.mode = Mode::Focus;
                self.remaining_secs = self.focus * 60;
            },
            Mode::LongBreak => {
                self.current_cycle = 1;
                self.mode = Mode::Focus;
                self.remaining_secs = self.focus * 60;
            },
        }
    }

    /// Flips between running and paused.
    pub fn toggle(&mut self)
        ensures
            *final(self) == (Pomodoro { running: !old(self).running, ..*old(self) }),
    {
        self.running = !self.running;
    }

    pub fn set_running(&mut self, running: bool)
        ensures
            *final(self) == (Pomodoro { running, ..*old(self) }),
    {
        self.running = running;
    }

    pub fn get_project(&self) -> (p: &Project)
        ensures
            p == self.project,
    {
        &self.project
    }

    /// The label of the current phase.
    pub fn mode_name(&self) -> (r: &'static str)
        ensures
            r@ == mode_name_spec(self.mode),
    {
        match self.mode {
            Mode::Focus => "FOCUS",
            Mode::Break => "BREAK",
            Mode::LongBreak => "LONG BREAK",
        }
    }

    /// The hex color code of the current phase's accent, taken from the
    /// default theme: foreground for focus, green for the short break, teal
    /// for the long one.
    pub fn mode_color(&self) -> (c: String)
        ensures
            c@ == mode_color_spec(self.mode),
    {
        let theme = Theme::default();
        let code = match self.mode {
            Mode::Focus => theme.get_color(Base16::Base05),
            Mode::Break => theme.get_color(Base16::Base0B),
            Mode::LongBreak => theme.get_color(Base16::Base0C),
        };
        String::from_str(code)
    }

    /// The status line under the countdown: cycle progress, running state,
    /// and the key bindings.
    pub fn status_line(&self) -> (r: String)
        ensures
            r@ == status_line_spec(*self),
    {
        let mut out = String::new();
        out.append("cycle: ");
        push_dec(self.current_cycle, &mut out);
        out.append("/");
        push_dec(self.cycles, &mut out);
        out.append(" | status: ");
        if self.running {
            out.append("running");
        } else {
            out.append("paused");
        }
        out.append(" | [space] pause/play | [r] reset | [s] skip | [p] projects | [q] quit");
        proof {
            assert(out@ =~= status_line_spec(*self));
        }
        out
    }

    /// The session's own elapsed-time line, shown with the phase label.
    pub fn total_line(&self) -> (r: String)
        ensures
            r@ == total_line_spec(self.total_seconds as nat),
    {
        let mut out = String::new();
        out.append("TOTAL: ");
        push_padded2(self.total_seconds / 60, &mut out);
        out.append("m ");
        push_padded2(self.total_seconds % 60, &mut out);
        out.append("s");
        proof {
            assert(out@ =~= total_line_spec(self.total_seconds as nat));
        }
        out
    }
}

/// The label of a phase.
pub open spec fn mode_name_spec(m: Mode) -> Seq<char> {
    match m {
        Mode::Focus => "FOCUS"@,
        Mode::Break => "BREAK"@,
        Mode::LongBreak => "LONG BREAK"@,
    }
}

/// The default theme's accent per phase.
pub open spec fn mode_color_spec(m: Mode) -> Seq<char> {
    match m {
        Mode::Focus => "#cad3f5"@,
        Mode::Break => "#a6da95"@,
        Mode::LongBreak => "#8bd5ca"@,
    }
}

/// The status line under the countdown.
pub open spec fn status_line_spec(s: Pomodoro) -> Seq<char> {
    "cycle: "@ + dec_digits(s.current_cycle as nat) + "/"@ + dec_digits(s.cycles as nat)
        + " | status: "@ + (if s.running {
        "running"@
    } else {
        "paused"@
    }) + " | [space] pause/play | [r] reset | [s] skip | [p] projects | [q] quit"@
}

/// The session's elapsed-time line.
pub open spec fn total_line_spec(total: nat) -> Seq<char> {
    "TOTAL: "@ + padded2(total / 60) + "m "@ + padded2(total % 60) + "s"@
}

/// A countdown as the clock shows it: minutes and seconds, both padded to
/// two digits, separated by a colon.
pub open spec fn format_time_spec(secs: nat) -> Seq<char> {
    padded2(secs / 60) + ":"@ + padded2(secs % 60)
}

/// Renders a second count as `MM:SS` (the minute field grows beyond two
/// digits when it must).
pub fn format_time(secs: u32) -> (r: String)
    ensures
        r@ == format_time_spec(secs as nat),
{
    let mut out = String::new();
    push_padded2(secs / 60, &mut out);
    out.append(":");
    push_padded2(secs % 60, &mut out);
    proof {
        assert(out@ =~= format_time_spec(secs as nat));
    }
    out
}

/// The five glyph rows of one clock character. Characters outside the digit
/// and colon table render as blank glyphs.
pub open spec fn glyph_rows(c: char) -> Seq<Seq<char>> {
    if c == '0' {
        seq![" ███ "@, "█   █"@, "█   █"@, "█   █"@, " ███ "@]
    } else if c == '1' {
        seq!["  █  "@, " ██  "@, "  █  "@, "  █  "@, "█████"@]
    } else if c == '2' {
        seq![" ███ "@, "█   █"@, "  ██ "@, "██   "@, "█████"@]
    } else if c == '3' {
        seq![" ███ "@, "█   █"@, "  ██ "@, "█   █"@, " ███ "@]
    } else if c == '4' {
        seq!["█   █"@, "█   █"@, "█████"@, "    █"@, "    █"@]
    } else if c == '5' {
        seq!["█████"@, "█    "@, "████ "@, "    █"@, "████ "@]
    } else if c == '6' {
        seq![" ███ "@, "█    "@, "████ "@, "█   █"@, " ███ "@]
    } else if c == '7' {
        seq!["█████"@, "    █"@, "   █ "@, "  █  "@, "  █  "@]
    } else if c == '8' {
        seq![" ███ "@, "█   █"@, " ███ "@, "█   █"@, " ███ "@]
    } else if c == '9' {
        seq![" ███ "@, "█   █"@, " ████"@, "    █"@, " ███ "@]
    } else if c == ':' {
        seq!["   "@, " █ "@, "   "@, " █ "@, "   "@]
    } else {
        seq!["     "@, "     "@, "     "@, "     "@, "     "@]
    }
}

/// One row of the glyph rendering of a character sequence: each character's
/// glyph row followed by a single separating space.
pub open spec fn timer_row(cs: Seq<char>, row: int) -> Seq<char>
    decreases cs.len(),
{
    if cs.len() == 0 {
        Seq::empty()
    } else {
        timer_row(cs.drop_last(), row) + glyph_rows(cs.last())[row] + " "@
    }
}

/// One glyph row of one clock character.
fn glyph_row(c: char, row: usize) -> (s: &'static str)
    requires
        row < 5,
    ensures
        s@ == glyph_rows(c)[row as int],
{
    if c == '0' {
        match row {
            0 => " ███ ",
            1 => "█   █",
            2 => "█   █",
            3 => "█   █",
            _ => " ███ ",
        }
    } else if c == '1' {
        match row {
            0 => "  █  ",
            1 => " ██  ",
            2 => "  █  ",
            3 => "  █  ",
            _ => "█████",
        }
    } else if c == '2' {
        match row {
            0 => " ███ ",
            1 => "█   █",
            2 => "  ██ ",
            3 => "██   ",
            _ => "█████",
        }
    } else if c == '3' {
        match row {
            0 => " ███ ",
            1 => "█   █",
            2 => "  ██ ",
            3 => "█   █",
            _ => " ███ ",
        }
    } else if c == '4' {
        match row {
            0 => "█   █",
            1 => "█   █",
            2 => "█████",
            3 => "    █",
            _ => "    █",
        }
    } else if c == '5' {
        match row {
            0 => "█████",
            1 => "█    ",
            2 => "████ ",
            3 => "    █",
            _ => "████ ",
        }
    } else if c == '6' {
        match row {
            0 => " ███ ",
            1 => "█    ",
            2 => "████ ",
            3 => "█   █",
            _ => " ███ ",
        }
    } else if c == '7' {
        match row {
            0 => "█████",
            1 => "    █",
            2 => "   █ ",
            3 => "  █  ",
            _ => "  █  ",
        }
    } else if c == '8' {
        match row {
            0 => " ███ ",
            1 => "█   █",
            2 => " ███ ",
            3 => "█   █",
            _ => " ███ ",
        }
    } else if c == '9' {
        match row {
            0 => " ███ ",
            1 => "█   █",
            2 => " ████",
            3 => "    █",
            _ => " ███ ",
        }
    } else if c == ':' {
        match row {
            0 => "   ",
            1 => " █ ",
            2 => "   ",
            3 => " █ ",
            _ => "   ",
        }
    } else {
        match row {
            0 => "     ",
            1 => "     ",
            2 => "     ",
            3 => "     ",
            _ => "     ",
        }
    }
}

/// The five-row glyph rendering of the countdown, as `MM:SS`.
pub fn draw_timer_ascii(remaining: u32) -> (lines: Vec<String>)
    ensures
        lines@.len() == 5,
        forall|row: int|
            0 <= row < 5 ==> lines@[row]@ == timer_row(
                format_time_spec(remaining as nat),
                row,
            ),
{
    let time = format_time(remaining);
    let n = time.as_str().unicode_len();
    let mut line0 = String::new();
    let mut line1 = String::new();
    let mut line2 = String::new();
    let mut line3 = String::new();
    let mut line4 = String::new();
    let mut i: usize = 0;
    while i < n
        invariant
            n == time@.len(),
            i <= n,
            line0@ == timer_row(time@.take(i as int), 0),
            line1@ == timer_row(time@.take(i as int), 1),
            line2@ == timer_row(time@.take(i as int), 2),
            line3@ == timer_row(time@.take(i as int), 3),
            line4@ == timer_row(time@.take(i as int), 4),
        decreases n - i,
    {
        let c = time.as_str().get_char(i);
        line0.append(glyph_row(c, 0));
        line0.append(" ");
        line1.append(glyph_row(c, 1));
        line1.append(" ");
        line2.append(glyph_row(c, 2));
        line2.append(" ");
        line3.append(glyph_row(c, 3));
        line3.append(" ");
        line4.append(glyph_row(c, 4));
        line4.append(" ");
        proof {
            let cs = time@.take(i as int + 1);
            assert(cs.drop_last() =~= time@.take(i as int));
            assert(cs.last() == time@[i as int]);
            assert(line0@ =~= timer_row(cs, 0));
            assert(line1@ =~= timer_row(cs, 1));
            assert(line2@ =~= timer_row(cs, 2));
            assert(line3@ =~= timer_row(cs, 3));
            assert(line4@ =~= timer_row(cs, 4));
        }
        i = i + 1;
    }
    proof {
        assert(time@.take(n as int) =~= time@);
    }
    let mut lines: Vec<String> = Vec::new();
    lines.push(line0);
    lines.push(line1);
    lines.push(line2);
    lines.push(line3);
    lines.push(line4);
    lines
}

/// A tick while the timer is paused changes nothing: neither the countdown,
/// the phase and cycle, nor any counter.
pub proof fn lemma_tick_paused(s: Pomodoro)
    requires
        !s.running,
    ensures
        tick_spec(s) == s,
{
}

/// Over a run of ticks short enough to stay inside the current phase, the
/// project's total counter grows by exactly the number of ticks; the focus
/// counter grows by the same amount in a focus phase and not at all in a
/// break phase. Phase, cycle and running state are untouched, and the
/// countdown loses exactly the ticked seconds.
pub proof fn lemma_tick_accrual(s: Pomodoro, k: nat)
    requires
        s.wf(),
        s.running,
        k <= s.remaining_secs,
        s.total_seconds + k <= u32::MAX,
        s.project.total_seconds + k <= u32::MAX,
    ensures
        ticks(s, k).wf(),
        ticks(s, k).mode == s.mode,
        ticks(s, k).running,
        ticks(s, k).current_cycle == s.current_cycle,
        ticks(s, k).remaining_secs == s.remaining_secs - k,
        ticks(s, k).total_seconds == s.total_seconds + k,
        ticks(s, k).project.name == s.project.name,
        ticks(s, k).project.total_seconds == s.project.total_seconds + k,
        s.mode is Focus ==> ticks(s, k).project.focus_seconds == s.project.focus_seconds + k,
        !(s.mode is Focus) ==> ticks(s, k).project.focus_seconds == s.project.focus_seconds,
    decreases k,
{
    if k > 0 {
        lemma_tick_accrual(s, (k - 1) as nat);
    }
}

/// One completed focus phase below the last cycle leads to the short break
/// of the same cycle, and the break's completion back to focus in the next
/// cycle, with configuration, project and running state untouched.
pub proof fn lemma_round_trip(s: Pomodoro)
    requires
        s.wf(),
        s.mode is Focus,
        s.current_cycle < s.cycles,
    ensures
        ({
            let t = next_spec(s);
            let u = next_spec(t);
            &&& t.mode is Break
            &&& t.current_cycle == s.current_cycle
            &&& t.remaining_secs == s.break_time * 60
            &&& u.mode is Focus
            &&& u.current_cycle == s.current_cycle + 1
            &&& u.remaining_secs == s.focus * 60
            &&& u.running == s.running
            &&& u.project == s.project
            &&& u.wf()
        }),
{
}

/// `k` focus/break round trips from a focus phase advance the cycle counter
/// by exactly `k`, as long as they stay below the long-break edge, and touch
/// nothing else.
pub proof fn lemma_cycle_progress(s: Pomodoro, k: nat)
    requires
        s.wf(),
        s.mode is Focus,
        s.current_cycle + k <= s.cycles,
    ensures
        round_trips(s, k).wf(),
        round_trips(s, k).mode is Focus,
        round_trips(s, k).current_cycle == s.current_cycle + k,
        round_trips(s, k).focus == s.focus,
        round_trips(s, k).break_time == s.break_time,
        round_trips(s, k).long_break == s.long_break,
        round_trips(s, k).cycles == s.cycles,
        round_trips(s, k).running == s.running,
        round_trips(s, k).project == s.project,
        round_trips(s, k).total_seconds == s.total_seconds,
    decreases k,
{
    if k > 0 {
        lemma_cycle_progress(s, (k - 1) as nat);
    }
}

/// The cyclic invariant of the machine: from the first focus phase of a
/// round, the first `cycles - 1` phase completions pair up into focus/break
/// round trips that leave the machine in focus at the last cycle; completing
/// that focus phase enters the long break, and completing the long break
/// starts a fresh round in focus at cycle 1.
pub proof fn lemma_long_break_cycle(s: Pomodoro)
    requires
        s.wf(),
        s.mode is Focus,
        s.current_cycle == 1,
    ensures
        ({
            let last = round_trips(s, (s.cycles - 1) as nat);
            let lb = next_spec(last);
            let fresh = next_spec(lb);
            &&& last.mode is Focus
            &&& last.current_cycle == s.cycles
            &&& lb.mode is LongBreak
            &&& lb.remaining_secs == s.long_break * 60
            &&& lb.current_cycle == s.cycles
            &&& fresh.mode is Focus
            &&& fresh.current_cycle == 1
            &&& fresh.remaining_secs == s.focus * 60
            &&& fresh.running == s.running
            &&& fresh.project == s.project
            &&& fresh.wf()
        }),
{
    lemma_cycle_progress(s, (s.cycles - 1) as nat);
}

} // verus!
