use vstd::prelude::*;

use crate::command::{build, interpreter_args, Invocation};
use crate::resolver::{opt_view, resolve, resolved_location, DEFAULT_INTERPRETER};

verus! {

/// One script to execute, with what is needed to run it either way.
pub struct InvocationRequest {
    pub script_source: String,
    pub script_path: String,
    pub extra_args: Vec<String>,
    pub debug: bool,
}

/// How one dispatch ended.
#[derive(PartialEq, Eq, Structural, Clone, Copy, Debug)]
pub enum ExitOutcome {
    /// The external interpreter ran and exited with this code.
    Exited(i32),
    /// The external interpreter could not be started and the embedded runtime
    /// ran the script instead.
    FallbackInvoked,
}

/// Where a dispatch stands.
#[derive(PartialEq, Eq, Structural, Clone, Copy, Debug)]
pub enum Phase {
    Ready,
    AwaitingChild,
    RunningEmbedded,
    Finished(ExitOutcome),
}

/// What the caller observed since the last step.
#[derive(PartialEq, Eq, Structural, Clone, Copy, Debug)]
pub enum Event {
    /// The caller is ready to start the dispatch.
    Begin,
    /// The spawned child terminated with this exit code.
    ChildExited(i32),
    /// The external interpreter could not be started.
    SpawnFailed,
    /// The embedded runtime has returned.
    EmbeddedFinished,
}

/// What the caller is asked to do next.
pub enum Action {
    /// Start this command with inherited standard input and wait for it; print
    /// the command first when `report_command` is set.
    Spawn { invocation: Invocation, report_command: bool },
    /// Run the script on the embedded runtime; when `announce_fallback` is set,
    /// first say that the external interpreter was not found and which embedded
    /// version is used.
    RunEmbedded { source: String, args: Vec<String>, debug: bool, announce_fallback: bool },
    /// The dispatch is over; print the child's exit code when `report_exit` is set.
    Finish { outcome: ExitOutcome, report_exit: bool },
    /// The event does not apply in the current phase; nothing to do.
    Idle,
}

impl Action {
    pub open spec fn is_spawn_of(&self, program: Seq<char>, args: Seq<Seq<char>>, report: bool) -> bool {
        match self {
            Action::Spawn { invocation, report_command } => invocation.program_view() == program
                && invocation.args_view() == args && *report_command == report,
            _ => false,
        }
    }

    pub open spec fn is_embedded_run_of(&self, src: Seq<char>, extra: Seq<Seq<char>>, dbg: bool, announce: bool) -> bool {
        match self {
            Action::RunEmbedded { source, args, debug, announce_fallback } => source@ == src
                && args.deep_view() == extra && *debug == dbg && *announce_fallback == announce,
            _ => false,
        }
    }

    pub open spec fn is_finish_of(&self, out: ExitOutcome, report: bool) -> bool {
        match self {
            Action::Finish { outcome, report_exit } => *outcome == out && *report_exit == report,
            _ => false,
        }
    }
}

/// The phase that follows `phase` on `event`. Events that do not apply leave
/// the phase as it is.
pub open spec fn next_phase(phase: Phase, event: Event) -> Phase {
    match (phase, event) {
        (Phase::Ready, Event::Begin) => Phase::AwaitingChild,
        (Phase::AwaitingChild, Event::ChildExited(code)) => Phase::Finished(ExitOutcome::Exited(code)),
        (Phase::AwaitingChild, Event::SpawnFailed) => Phase::RunningEmbedded,
        (Phase::RunningEmbedded, Event::EmbeddedFinished) => Phase::Finished(ExitOutcome::FallbackInvoked),
        _ => phase,
    }
}

/// Whether `event` in `phase` starts the external interpreter.
pub open spec fn starts_child(phase: Phase, event: Event) -> bool {
    phase == Phase::Ready && event == Event::Begin
}

/// Whether `event` in `phase` hands the script to the embedded runtime.
pub open spec fn starts_fallback(phase: Phase, event: Event) -> bool {
    phase == Phase::AwaitingChild && event == Event::SpawnFailed
}

/// The phase reached from `start` after the events in order.
pub open spec fn phase_after(start: Phase, events: Seq<Event>) -> Phase
    decreases events.len(),
{
    if events.len() == 0 {
        start
    } else {
        next_phase(phase_after(start, events.drop_last()), events.last())
    }
}

/// How many times the external interpreter is started along the events.
pub open spec fn child_starts(start: Phase, events: Seq<Event>) -> nat
    decreases events.len(),
{
    if events.len() == 0 {
        0
    } else {
        child_starts(start, events.drop_last()) + if starts_child(
            phase_after(start, events.drop_last()),
            events.last(),
        ) {
            1nat
        } else {
            0nat
        }
    }
}

/// How many times the embedded runtime is started along the events.
pub open spec fn fallback_starts(start: Phase, events: Seq<Event>) -> nat
    decreases events.len(),
{
    if events.len() == 0 {
        0
    } else {
        fallback_starts(start, events.drop_last()) + if starts_fallback(
            phase_after(start, events.drop_last()),
            events.last(),
        ) {
            1nat
        } else {
            0nat
        }
    }
}

/// What has been started so far, for each phase reached from `Ready`.
pub open spec fn starts_match_phase(phase: Phase, children: nat, fallbacks: nat) -> bool {
    match phase {
        Phase::Ready => children == 0 && fallbacks == 0,
        Phase::AwaitingChild => children == 1 && fallbacks == 0,
        Phase::RunningEmbedded => children == 1 && fallbacks == 1,
        Phase::Finished(ExitOutcome::Exited(_)) => children == 1 && fallbacks == 0,
        Phase::Finished(ExitOutcome::FallbackInvoked) => children == 1 && fallbacks == 1,
    }
}

proof fn lemma_starts_match_phase(events: Seq<Event>)
    ensures
        starts_match_phase(
            phase_after(Phase::Ready, events),
            child_starts(Phase::Ready, events),
            fallback_starts(Phase::Ready, events),
        ),
    decreases events.len(),
{
    if events.len() > 0 {
        lemma_starts_match_phase(events.drop_last());
    }
}

/// Whatever events a dispatch sees, it starts at most one child and runs the
/// embedded runtime at most once, and only after that child failed to start.
/// A finished dispatch has exactly one result: an observed exit code, in which
/// case the embedded runtime never ran, or the fallback, in which case it ran
/// once; never both and never neither. A finished dispatch stays finished.
pub proof fn lemma_dispatch_single_outcome(events: Seq<Event>, later: Seq<Event>)
    ensures
        child_starts(Phase::Ready, events) <= 1,
        fallback_starts(Phase::Ready, events) <= child_starts(Phase::Ready, events),
        phase_after(Phase::Ready, events) is Finished ==> child_starts(Phase::Ready, events) == 1,
        phase_after(Phase::Ready, events) is Finished ==> (
            (phase_after(Phase::Ready, events)->Finished_0 is Exited) <==> fallback_starts(Phase::Ready, events) == 0
        ),
        phase_after(Phase::Ready, events) is Finished ==> (
            (phase_after(Phase::Ready, events)->Finished_0 is FallbackInvoked) <==> fallback_starts(Phase::Ready, events) == 1
        ),
        phase_after(Phase::Ready, events) is Finished ==> phase_after(phase_after(Phase::Ready, events), later)
            == phase_after(Phase::Ready, events),
{
    lemma_starts_match_phase(events);
    if phase_after(Phase::Ready, events) is Finished {
        lemma_finished_is_final(phase_after(Phase::Ready, events), later);
    }
}

proof fn lemma_finished_is_final(phase: Phase, events: Seq<Event>)
    requires
        phase is Finished,
    ensures
        phase_after(phase, events) == phase,
    decreases events.len(),
{
    if events.len() > 0 {
        lemma_finished_is_final(phase, events.drop_last());
    }
}

/// The supervisor of one dispatch: it resolves the interpreter, asks for one
/// spawn and, only when that spawn fails, for one run of the embedded runtime.
pub struct Dispatcher {
    pub request: InvocationRequest,
    pub location: String,
    pub phase: Phase,
}

impl Dispatcher {
    /// Starts a dispatch of `request`; the interpreter location is resolved
    /// from the explicit override and the environment variable's value.
    pub fn new(request: InvocationRequest, explicit_override: Option<String>, env_value: Option<String>) -> (r: Dispatcher)
        ensures
            r.request == request,
            r.location@ == resolved_location(opt_view(explicit_override), opt_view(env_value), DEFAULT_INTERPRETER@),
            r.phase == Phase::Ready,
    {
        let location = resolve(explicit_override, env_value);
        Dispatcher { request, location, phase: Phase::Ready }
    }

    /// The current phase.
    pub fn phase(&self) -> (r: Phase)
        ensures
            r == self.phase,
    {
        self.phase
    }

    /// Advances the dispatch on `event` and says what the caller must do.
    pub fn step(&mut self, event: Event) -> (r: Action)
        ensures
            final(self).phase == next_phase(old(self).phase, event),
            final(self).request == old(self).request,
            final(self).location == old(self).location,
            starts_child(old(self).phase, event) ==> r.is_spawn_of(
                old(self).location@,
                interpreter_args(old(self).request.script_path@, old(self).request.debug, old(self).request.extra_args.deep_view()),
                old(self).request.debug,
            ),
            starts_fallback(old(self).phase, event) ==> r.is_embedded_run_of(
                old(self).request.script_source@,
                old(self).request.extra_args.deep_view(),
                old(self).request.debug,
                old(self).request.debug,
            ),
            (old(self).phase == Phase::AwaitingChild && event is ChildExited) ==> r.is_finish_of(
                ExitOutcome::Exited(event->ChildExited_0),
                old(self).request.debug,
            ),
            (old(self).phase == Phase::RunningEmbedded && event == Event::EmbeddedFinished) ==> r.is_finish_of(
                ExitOutcome::FallbackInvoked,
                false,
            ),
            next_phase(old(self).phase, event) == old(self).phase ==> r is Idle,
    {
        let debug = self.request.debug;
        match (self.phase, event) {
            (Phase::Ready, Event::Begin) => {
                let invocation = build(
                    self.location.as_str(),
                    self.request.script_path.as_str(),
                    debug,
                    &self.request.extra_args,
                );
                self.phase = Phase::AwaitingChild;
                Action::Spawn { invocation, report_command: debug }
            },
            (Phase::AwaitingChild, Event::ChildExited(code)) => {
                self.phase = Phase::Finished(ExitOutcome::Exited(code));
                Action::Finish { outcome: ExitOutcome::Exited(code), report_exit: debug }
            },
            (Phase::AwaitingChild, Event::SpawnFailed) => {
                let source = self.request.script_source.clone();
                let args = self.request.extra_args.clone();
                proof {
                    assert(args.deep_view() =~= self.request.extra_args.deep_view());
                }
                self.phase = Phase::RunningEmbedded;
                Action::RunEmbedded { source, args, debug, announce_fallback: debug }
            },
            (Phase::RunningEmbedded, Event::EmbeddedFinished) => {
                self.phase = Phase::Finished(ExitOutcome::FallbackInvoked);
                Action::Finish { outcome: ExitOutcome::FallbackInvoked, report_exit: false }
            },
            _ => Action::Idle,
        }
    }
}

} // verus!
