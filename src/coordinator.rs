use vstd::prelude::*;
use crate::config::Config;
use crate::window::{selects, WindowError, WindowMonitor};

verus! {

/// Why the save chord could not be delivered.
#[derive(Clone, Copy, Debug, PartialEq, Eq, Structural)]
pub enum InputError {
    /// The system accepted none of the synthetic key events.
    Rejected,
}

/// Where the coordinator stands within one timer tick.
#[derive(Clone, Copy, Debug, PartialEq, Eq, Structural)]
pub enum Phase {
    /// Waiting for the interval to elapse.
    Idle,
    /// Waiting for the foreground window to be resolved.
    Inspecting,
    /// Waiting for the save chord to be sent.
    Sending,
    /// Waiting for the saved window's name, to announce it.
    Confirming,
}

/// What the outside world reports back to the coordinator.
pub enum Event {
    /// The interval elapsed; `paused` is the pause flag's value at that moment.
    TimerElapsed { paused: bool },
    /// The foreground window was resolved (or not), to decide on a save.
    WindowResolved(Result<String, WindowError>),
    /// The save chord was sent (or not).
    ChordSent(Result<(), InputError>),
    /// The foreground window was resolved again after a save, to name it.
    SavedWindowResolved(Result<String, WindowError>),
}

/// A message for the status output.
pub enum Report {
    /// The chord went to the named executable.
    Saved(String),
    /// The chord could not be sent.
    SaveFailed(InputError),
}

/// What the coordinator asks the outside world to do next.
pub enum Action {
    /// Sleep for the interval, then report `TimerElapsed`.
    Sleep,
    /// Print the report, then sleep for the interval and report `TimerElapsed`.
    Announce(Report),
    /// Resolve the foreground window and report `WindowResolved`.
    InspectWindow,
    /// Send the save chord and report `ChordSent`.
    SendChord,
    /// Resolve the foreground window and report `SavedWindowResolved`.
    InspectSavedWindow,
}

/// One transition: the phase after `event` in `phase`, and the action it asks
/// for, with `targets` as the allow-list. An event that the phase does not
/// wait for ends the tick.
pub open spec fn step_spec(phase: Phase, targets: Seq<String>, event: Event) -> (Phase, Action) {
    match (phase, event) {
        (Phase::Idle, Event::TimerElapsed { paused }) => if paused {
            (Phase::Idle, Action::Sleep)
        } else if targets.len() == 0 {
            (Phase::Sending, Action::SendChord)
        } else {
            (Phase::Inspecting, Action::InspectWindow)
        },
        (Phase::Inspecting, Event::WindowResolved(active)) => if selects(targets, active) {
            (Phase::Sending, Action::SendChord)
        } else {
            (Phase::Idle, Action::Sleep)
        },
        (Phase::Sending, Event::ChordSent(Ok(()))) => (Phase::Confirming, Action::InspectSavedWindow),
        (Phase::Sending, Event::ChordSent(Err(e))) => (
            Phase::Idle,
            Action::Announce(Report::SaveFailed(e)),
        ),
        (Phase::Confirming, Event::SavedWindowResolved(Ok(exe))) => (
            Phase::Idle,
            Action::Announce(Report::Saved(exe)),
        ),
        _ => (Phase::Idle, Action::Sleep),
    }
}

/// The actions asked for along a run of events, from `phase`.
pub open spec fn actions_of(phase: Phase, targets: Seq<String>, events: Seq<Event>) -> Seq<Action>
    decreases events.len(),
{
    if events.len() == 0 {
        seq![]
    } else {
        let (next, action) = step_spec(phase, targets, events[0]);
        seq![action] + actions_of(next, targets, events.drop_first())
    }
}

/// The main loop's decisions: on each tick, skip while paused, skip when the
/// foreground window is out of scope, otherwise send the save chord and
/// announce the outcome.
pub struct Coordinator {
    target_apps: Vec<String>,
    monitor: WindowMonitor,
    phase: Phase,
}

impl Coordinator {
    pub closed spec fn targets(&self) -> Seq<String> {
        self.target_apps@
    }

    pub closed spec fn phase_spec(&self) -> Phase {
        self.phase
    }

    /// A coordinator for the settings `config`, waiting for the first tick.
    pub fn new(config: &Config) -> (r: Coordinator)
        ensures
            r.targets() == config.target_apps@,
            r.phase_spec() == Phase::Idle,
    {
        let c = config.clone();
        Coordinator { target_apps: c.target_apps, monitor: WindowMonitor::new(), phase: Phase::Idle }
    }

    pub fn phase(&self) -> (r: Phase)
        ensures
            r == self.phase_spec(),
    {
        self.phase
    }

    /// Takes one event and returns the next action.
    pub fn step(&mut self, event: Event) -> (r: Action)
        ensures
            final(self).targets() == old(self).targets(),
            (final(self).phase_spec(), r) == step_spec(old(self).phase_spec(), old(self).targets(), event),
    {
        match (self.phase, event) {
            (Phase::Idle, Event::TimerElapsed { paused }) => {
                if paused {
                    self.phase = Phase::Idle;
                    Action::Sleep
                } else if self.target_apps.len() == 0 {
                    self.phase = Phase::Sending;
                    Action::SendChord
                } else {
                    self.phase = Phase::Inspecting;
                    Action::InspectWindow
                }
            },
            (Phase::Inspecting, Event::WindowResolved(active)) => {
                if self.monitor.is_target_app(self.target_apps.as_slice(), active) {
                    self.phase = Phase::Sending;
                    Action::SendChord
                } else {
                    self.phase = Phase::Idle;
                    Action::Sleep
                }
            },
            (Phase::Sending, Event::ChordSent(Ok(()))) => {
                self.phase = Phase::Confirming;
                Action::InspectSavedWindow
            },
            (Phase::Sending, Event::ChordSent(Err(e))) => {
                self.phase = Phase::Idle;
                Action::Announce(Report::SaveFailed(e))
            },
            (Phase::Confirming, Event::SavedWindowResolved(Ok(exe))) => {
                self.phase = Phase::Idle;
                Action::Announce(Report::Saved(exe))
            },
            _ => {
                self.phase = Phase::Idle;
                Action::Sleep
            },
        }
    }
}

/// While the flag stays paused, timer ticks never ask for the save chord,
/// whatever phase the run starts in.
pub proof fn lemma_paused_ticks_never_send(phase: Phase, targets: Seq<String>, events: Seq<Event>)
    requires
        forall|i: int| 0 <= i < events.len() ==> #[trigger] events[i] == (Event::TimerElapsed { paused: true }),
    ensures
        forall|i: int|
            0 <= i < actions_of(phase, targets, events).len() ==> !(#[trigger] actions_of(
                phase,
                targets,
                events,
            )[i] is SendChord),
        actions_of(phase, targets, events).len() == events.len(),
    decreases events.len(),
{
    if events.len() > 0 {
        let (next, action) = step_spec(phase, targets, events[0]);
        let rest = events.drop_first();
        assert forall|i: int| 0 <= i < rest.len() implies #[trigger] rest[i] == (Event::TimerElapsed { paused: true }) by {
            assert(rest[i] == events[i + 1]);
        }
        lemma_paused_ticks_never_send(next, targets, rest);
        let all = actions_of(phase, targets, events);
        assert(all == seq![action] + actions_of(next, targets, rest));
        assert(!(action is SendChord));
        assert forall|i: int| 0 <= i < all.len() implies !(#[trigger] all[i] is SendChord) by {
            if i > 0 {
                assert(all[i] == actions_of(next, targets, rest)[i - 1]);
            }
        }
    }
}

} // verus!
