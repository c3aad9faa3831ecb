//! The deferred-command helper: run an action once a delay has elapsed.
//!
//! A [`LaterCommand`] pairs an action tag with a one-shot timer. Once per
//! frame the host reports the elapsed time and [`handle_later_commands`]
//! advances every pending timer; the commands whose timer finishes on that
//! tick are removed and their action tags handed back, in order, for the host
//! to run synchronously. The host owns real time and the actions themselves;
//! the library decides, from whole-millisecond deltas, which actions fire and
//! what stays pending.

use vstd::prelude::*;

use crate::{same_but_systems, App, Schedule, SystemLabel, SystemReg};

verus! {

/// The helper module's registration: tick the deferred commands before every
/// frame's main update.
pub open spec fn helpers_registration() -> SystemReg {
    SystemReg {
        schedule: Schedule::PreUpdate,
        system: SystemLabel::HandleLaterCommands,
        run_if: Option::None,
    }
}

/// Registers the deferred-command system.
pub fn plugin(app: &mut App)
    ensures
        final(app).systems@ == old(app).systems@.push(helpers_registration()),
        same_but_systems(*old(app), *final(app)),
{
    app.systems.push(
        SystemReg {
            schedule: Schedule::PreUpdate,
            system: SystemLabel::HandleLaterCommands,
            run_if: Option::None,
        },
    );
}

/// A one-shot timer advanced by whole-millisecond ticks.
#[derive(Clone, Copy, PartialEq, Eq, Structural, Debug)]
pub struct Timer {
    /// Time accumulated so far, clamped to the duration.
    pub elapsed_ms: u64,
    /// The delay the timer was created with.
    pub duration_ms: u64,
    /// Whether some past tick reached the duration.
    pub finished: bool,
}

impl Timer {
    /// The elapsed time never exceeds the duration, and a finished timer has
    /// reached it.
    pub open spec fn wf(self) -> bool {
        &&& self.elapsed_ms <= self.duration_ms
        &&& (self.finished ==> self.elapsed_ms == self.duration_ms)
    }

    /// The timer after a tick of `delta_ms`: the elapsed time grows by the
    /// delta, clamped to the duration, and the timer is finished once the
    /// duration is reached.
    pub open spec fn spec_tick(self, delta_ms: u64) -> Timer {
        if self.elapsed_ms + delta_ms >= self.duration_ms {
            Timer { elapsed_ms: self.duration_ms, duration_ms: self.duration_ms, finished: true }
        } else {
            Timer {
                elapsed_ms: (self.elapsed_ms + delta_ms) as u64,
                duration_ms: self.duration_ms,
                finished: false,
            }
        }
    }

    /// Whether a tick of `delta_ms` is the one on which the timer finishes.
    pub open spec fn spec_just_finished(self, delta_ms: u64) -> bool {
        !self.finished && self.spec_tick(delta_ms).finished
    }

    /// Creates a one-shot timer for the given delay.
    pub fn from_millis(duration_ms: u64) -> (t: Timer)
        ensures
            t == (Timer { elapsed_ms: 0, duration_ms, finished: false }),
            t.wf(),
    {
        Timer { elapsed_ms: 0, duration_ms, finished: false }
    }

    /// Advances the timer by `delta_ms` and reports whether it finished on
    /// this very tick.
    pub fn tick(&mut self, delta_ms: u64) -> (just_finished: bool)
        requires
            old(self).wf(),
        ensures
            *final(self) == old(self).spec_tick(delta_ms),
            just_finished == old(self).spec_just_finished(delta_ms),
            final(self).wf(),
    {
        let was_finished = self.finished;
        if delta_ms >= self.duration_ms - self.elapsed_ms {
            self.elapsed_ms = self.duration_ms;
            self.finished = true;
            !was_finished
        } else {
            self.elapsed_ms = self.elapsed_ms + delta_ms;
            false
        }
    }
}

/// A scheduled command: an action tag with the delay left before the host
/// runs it. The host maps the tag to the actual work; the library only
/// decides when it fires.
#[derive(Clone, Copy, PartialEq, Eq, Structural, Debug)]
pub struct LaterCommand {
    /// The action tag handed back to the host when the timer runs out.
    pub cmd: u64,
    /// The delay timer.
    pub delay: Timer,
}

impl LaterCommand {
    /// Creates a new LaterCommand from a duration in milliseconds and an
    /// action tag.
    pub fn new(millis: u64, command: u64) -> (c: LaterCommand)
        ensures
            c == (LaterCommand {
                cmd: command,
                delay: Timer { elapsed_ms: 0, duration_ms: millis, finished: false },
            }),
            c.delay.wf(),
    {
        LaterCommand { cmd: command, delay: Timer::from_millis(millis) }
    }
}

/// Every pending command's timer is well formed.
pub open spec fn all_timers_wf(s: Seq<LaterCommand>) -> bool {
    forall|i: int| 0 <= i < s.len() ==> (#[trigger] s[i]).delay.wf()
}

/// The action tags that fire when every command of `s` is ticked by
/// `delta_ms`, in order.
pub open spec fn fired_actions(s: Seq<LaterCommand>, delta_ms: u64) -> Seq<u64>
    decreases s.len(),
{
    if s.len() == 0 {
        Seq::empty()
    } else {
        fired_actions(s.drop_last(), delta_ms) + if s.last().delay.spec_just_finished(delta_ms) {
            seq![s.last().cmd]
        } else {
            Seq::empty()
        }
    }
}

/// The commands still pending after every command of `s` is ticked by
/// `delta_ms`: the ones that did not fire, in order, with advanced timers.
pub open spec fn remaining_commands(s: Seq<LaterCommand>, delta_ms: u64) -> Seq<LaterCommand>
    decreases s.len(),
{
    if s.len() == 0 {
        Seq::empty()
    } else {
        remaining_commands(s.drop_last(), delta_ms) + if s.last().delay.spec_just_finished(
            delta_ms,
        ) {
            Seq::empty()
        } else {
            seq![LaterCommand { cmd: s.last().cmd, delay: s.last().delay.spec_tick(delta_ms) }]
        }
    }
}

/// Ticks every pending command's timer by the frame delta. The commands
/// whose timer finishes on this tick are removed, and their action tags are
/// returned in order for the host to run; every other command stays, with
/// its timer advanced.
pub fn handle_later_commands(later_cmds: &mut Vec<LaterCommand>, delta_ms: u64) -> (fired: Vec<
    u64,
>)
    requires
        all_timers_wf(old(later_cmds)@),
    ensures
        fired@ == fired_actions(old(later_cmds)@, delta_ms),
        final(later_cmds)@ == remaining_commands(old(later_cmds)@, delta_ms),
        all_timers_wf(final(later_cmds)@),
{
    let ghost s = later_cmds@;
    let mut kept: Vec<LaterCommand> = Vec::new();
    let mut fired: Vec<u64> = Vec::new();
    let n = later_cmds.len();
    for i in 0..n
        invariant
            later_cmds@ == s,
            n == s.len(),
            all_timers_wf(s),
            fired@ == fired_actions(s.take(i as int), delta_ms),
            kept@ == remaining_commands(s.take(i as int), delta_ms),
            all_timers_wf(kept@),
    {
        let mut c = later_cmds[i];
        let just_finished = c.delay.tick(delta_ms);
        if just_finished {
            fired.push(c.cmd);
        } else {
            kept.push(c);
        }
        proof {
            assert(s.take(i + 1).drop_last() =~= s.take(i as int));
            assert(s.take(i + 1).last() == s[i as int]);
            assert(fired@ =~= fired_actions(s.take(i + 1), delta_ms));
            assert(kept@ =~= remaining_commands(s.take(i + 1), delta_ms));
        }
    }
    proof {
        assert(s.take(n as int) =~= s);
    }
    *later_cmds = kept;
    fired
}

/// Schedules `command` to run `millis` from now by appending it to the
/// pending commands.
pub fn later(later_cmds: &mut Vec<LaterCommand>, millis: u64, command: u64)
    ensures
        final(later_cmds)@ == old(later_cmds)@.push(
            LaterCommand { cmd: command, delay: Timer { elapsed_ms: 0, duration_ms: millis, finished: false } },
        ),
        all_timers_wf(old(later_cmds)@) ==> all_timers_wf(final(later_cmds)@),
{
    let c = LaterCommand::new(millis, command);
    later_cmds.push(c);
    proof {
        if all_timers_wf(old(later_cmds)@) {
            assert forall|i: int| 0 <= i < later_cmds@.len() implies (#[trigger] later_cmds@[i]).delay.wf()
                by {
                if i < old(later_cmds)@.len() {
                    assert(later_cmds@[i] == old(later_cmds)@[i]);
                }
            }
        }
    }
}

} // verus!
