use vstd::prelude::*;
use crate::locator::SidecarError;

verus! {

/// Milliseconds between registering the started sidecar and showing the
/// host window, to give the backend time to start listening. A heuristic
/// wait, not a readiness check.
pub const GRACE_DELAY_MS: u64 = 1500;

/// Where the supervisor stands in the sidecar's life.
#[derive(Clone, Copy, Debug, PartialEq, Eq, Structural)]
pub enum Phase {
    /// The host has not started yet.
    Idle,
    /// Locating and spawning runs in the background.
    Launching,
    /// The sidecar was started and is tracked by the lifecycle store.
    Running,
    /// Locating or spawning failed; the host carries on without a backend.
    LaunchFailed,
    /// The host window was asked to close and termination was requested.
    Stopped,
}

/// What happened to the host or to the background launch.
#[derive(Clone, Copy, Debug, PartialEq, Eq, Structural)]
pub enum Event {
    /// The host finished its own startup.
    HostStarted,
    /// The sidecar was located and spawned.
    LaunchSucceeded,
    /// Locating or spawning the sidecar failed.
    LaunchFailed,
    /// The grace delay after registration has passed.
    GraceElapsed,
    /// The host window was asked to close.
    CloseRequested,
}

/// What the host has to do next.
#[derive(Clone, Copy, Debug, PartialEq, Eq, Structural)]
pub enum Action {
    /// Nothing.
    Nothing,
    /// Locate and spawn the sidecar off the startup path, and report the
    /// outcome as an event.
    SpawnLauncher,
    /// Put the spawned handle into the lifecycle store, wait `delay_ms`, then
    /// report `GraceElapsed`.
    RegisterAndWait { delay_ms: u64 },
    /// Make the host window visible.
    ShowWindow,
    /// Ask the lifecycle store to terminate whatever it tracks, and let the
    /// window close without waiting for the child to exit.
    TerminateTracked,
}

/// The supervisor's state: its phase and whether the window was shown.
#[derive(Clone, Copy, Debug, PartialEq, Eq, Structural)]
pub struct Supervisor {
    pub phase: Phase,
    pub window_shown: bool,
}

/// The state at host startup.
pub open spec fn spec_initial() -> Supervisor {
    Supervisor { phase: Phase::Idle, window_shown: false }
}

/// One transition: the next state and the action to perform. A close
/// request always stops the supervisor at once; the window is shown at most
/// once, after the grace delay when the launch succeeded and right away when
/// it failed. A launch that completes after the close is still registered,
/// and nothing shows the window any more.
pub open spec fn spec_step(s: Supervisor, e: Event) -> (Supervisor, Action) {
    match e {
        Event::CloseRequested => (
            Supervisor { phase: Phase::Stopped, window_shown: s.window_shown },
            Action::TerminateTracked,
        ),
        Event::HostStarted => if s.phase == Phase::Idle {
            (Supervisor { phase: Phase::Launching, window_shown: s.window_shown }, Action::SpawnLauncher)
        } else {
            (s, Action::Nothing)
        },
        Event::LaunchSucceeded => if s.phase == Phase::Launching {
            (
                Supervisor { phase: Phase::Running, window_shown: s.window_shown },
                Action::RegisterAndWait { delay_ms: GRACE_DELAY_MS },
            )
        } else if s.phase == Phase::Stopped {
            (s, Action::RegisterAndWait { delay_ms: GRACE_DELAY_MS })
        } else {
            (s, Action::Nothing)
        },
        Event::LaunchFailed => if s.phase == Phase::Launching && !s.window_shown {
            (Supervisor { phase: Phase::LaunchFailed, window_shown: true }, Action::ShowWindow)
        } else if s.phase == Phase::Launching {
            (Supervisor { phase: Phase::LaunchFailed, window_shown: true }, Action::Nothing)
        } else {
            (s, Action::Nothing)
        },
        Event::GraceElapsed => if s.phase == Phase::Running && !s.window_shown {
            (Supervisor { phase: Phase::Running, window_shown: true }, Action::ShowWindow)
        } else {
            (s, Action::Nothing)
        },
    }
}

/// Runs `events` from `s`: the final state and how many times the window
/// was shown on the way.
pub open spec fn spec_run(s: Supervisor, events: Seq<Event>) -> (Supervisor, nat)
    decreases events.len(),
{
    if events.len() == 0 {
        (s, 0)
    } else {
        let (next, action) = spec_step(s, events[0]);
        let (last, shows) = spec_run(next, events.drop_first());
        (last, shows + if action == Action::ShowWindow { 1nat } else { 0nat })
    }
}

/// Along any run the window is shown exactly when the flag goes from unset to
/// set, and a set flag stays set.
proof fn lemma_shows_follow_flag(s: Supervisor, events: Seq<Event>)
    ensures
        s.window_shown ==> spec_run(s, events).0.window_shown,
        spec_run(s, events).1 == (if spec_run(s, events).0.window_shown && !s.window_shown {
            1nat
        } else {
            0nat
        }),
    decreases events.len(),
{
    if events.len() > 0 {
        lemma_shows_follow_flag(spec_step(s, events[0]).0, events.drop_first());
    }
}

/// Whatever happens during a host run, the window is shown at most once.
pub proof fn lemma_window_shown_at_most_once(events: Seq<Event>)
    ensures
        spec_run(spec_initial(), events).1 <= 1,
{
    lemma_shows_follow_flag(spec_initial(), events);
}

/// On the happy path (startup, successful launch, grace delay elapsed) the
/// window is shown exactly once, whatever follows.
pub proof fn lemma_window_shown_once_after_launch(rest: Seq<Event>)
    ensures
        spec_run(
            spec_initial(),
            seq![Event::HostStarted, Event::LaunchSucceeded, Event::GraceElapsed] + rest,
        ).1 == 1,
{
    let events = seq![Event::HostStarted, Event::LaunchSucceeded, Event::GraceElapsed] + rest;
    let s1 = spec_step(spec_initial(), Event::HostStarted).0;
    let s2 = spec_step(s1, Event::LaunchSucceeded).0;
    let s3 = spec_step(s2, Event::GraceElapsed).0;
    let e1 = events.drop_first();
    let e2 = e1.drop_first();
    assert(e2.drop_first() =~= rest);
    assert(events[0] == Event::HostStarted);
    assert(e1[0] == Event::LaunchSucceeded);
    assert(e2[0] == Event::GraceElapsed);
    lemma_shows_follow_flag(s3, rest);
    assert(spec_run(s2, e2).1 == spec_run(s3, rest).1 + 1);
    assert(spec_run(s1, e1).1 == spec_run(s2, e2).1);
    assert(spec_run(spec_initial(), events).1 == spec_run(s1, e1).1);
}

/// When the launch fails, the window is shown right away, exactly once,
/// whatever follows.
pub proof fn lemma_window_shown_once_after_failed_launch(rest: Seq<Event>)
    ensures
        spec_step(spec_step(spec_initial(), Event::HostStarted).0, Event::LaunchFailed).1
            == Action::ShowWindow,
        spec_run(spec_initial(), seq![Event::HostStarted, Event::LaunchFailed] + rest).1 == 1,
{
    let events = seq![Event::HostStarted, Event::LaunchFailed] + rest;
    let s1 = spec_step(spec_initial(), Event::HostStarted).0;
    let s2 = spec_step(s1, Event::LaunchFailed).0;
    let e1 = events.drop_first();
    assert(e1.drop_first() =~= rest);
    assert(events[0] == Event::HostStarted);
    assert(e1[0] == Event::LaunchFailed);
    lemma_shows_follow_flag(s2, rest);
    assert(spec_run(s1, e1).1 == spec_run(s2, rest).1 + 1);
    assert(spec_run(spec_initial(), events).1 == spec_run(s1, e1).1);
}

/// A close request stops the supervisor from any state and only asks for
/// termination: no later event, whether the termination went through, failed
/// or never finished, takes the supervisor out of `Stopped`.
pub proof fn lemma_close_never_waits(s: Supervisor, later: Seq<Event>)
    ensures
        spec_step(s, Event::CloseRequested).0.phase == Phase::Stopped,
        spec_step(s, Event::CloseRequested).1 == Action::TerminateTracked,
        spec_run(spec_step(s, Event::CloseRequested).0, later).0.phase == Phase::Stopped,
    decreases later.len(),
{
    if later.len() > 0 {
        let next = spec_step(spec_step(s, Event::CloseRequested).0, later[0]).0;
        assert(next.phase == Phase::Stopped);
        lemma_close_never_waits(next, later.drop_first());
        assert(spec_step(next, Event::CloseRequested).0 == next);
    }
}

impl Supervisor {
    /// The supervisor at host startup: idle, window hidden.
    pub fn new() -> (r: Self)
        ensures
            r == spec_initial(),
    {
        Supervisor { phase: Phase::Idle, window_shown: false }
    }

    /// Takes `event` and returns the action the host must perform.
    pub fn step(&mut self, event: Event) -> (r: Action)
        ensures
            (*final(self), r) == spec_step(*old(self), event),
    {
        match event {
            Event::CloseRequested => {
                self.phase = Phase::Stopped;
                Action::TerminateTracked
            },
            Event::HostStarted => {
                if self.phase == Phase::Idle {
                    self.phase = Phase::Launching;
                    Action::SpawnLauncher
                } else {
                    Action::Nothing
                }
            },
            Event::LaunchSucceeded => {
                if self.phase == Phase::Launching {
                    self.phase = Phase::Running;
                    Action::RegisterAndWait { delay_ms: GRACE_DELAY_MS }
                } else if self.phase == Phase::Stopped {
                    Action::RegisterAndWait { delay_ms: GRACE_DELAY_MS }
                } else {
                    Action::Nothing
                }
            },
            Event::LaunchFailed => {
                if self.phase == Phase::Launching {
                    let show = !self.window_shown;
                    self.phase = Phase::LaunchFailed;
                    self.window_shown = true;
                    if show {
                        Action::ShowWindow
                    } else {
                        Action::Nothing
                    }
                } else {
                    Action::Nothing
                }
            },
            Event::GraceElapsed => {
                if self.phase == Phase::Running && !self.window_shown {
                    self.window_shown = true;
                    Action::ShowWindow
                } else {
                    Action::Nothing
                }
            },
        }
    }
}

impl Event {
    /// The event that reports the outcome of a background launch.
    pub fn from_launch<H>(outcome: &Result<H, SidecarError>) -> (r: Event)
        ensures
            outcome is Ok ==> r == Event::LaunchSucceeded,
            outcome is Err ==> r == Event::LaunchFailed,
    {
        match outcome {
            Ok(_) => Event::LaunchSucceeded,
            Err(_) => Event::LaunchFailed,
        }
    }
}

} // verus!
