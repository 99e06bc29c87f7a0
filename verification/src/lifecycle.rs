//! The lifecycle of the window, from first frame to process exit.
//!
//! Once per UI refresh the controller is told whether the text box holds
//! focus, whether Enter was pressed in this frame and how long it has been
//! alive. It decides whether to ask for focus, to launch the pipeline or to
//! give up, and it passes the completion signal on exactly once: to the
//! pipeline it launches, or into the channel, writing it on the spot.

use vstd::prelude::*;
use crate::config::{Configuration, ConfigurationView};
use crate::outcome::PlaybackError;
use crate::pipeline::{
    full_report, lemma_full_run, lemma_released_once, EventView, Pipeline, PipelineStep,
    PipelineView, StepView,
};
use crate::signal::CompletionSignal;
use crate::synthesis::{ExchangeView, SynthesisRequest};

verus! {

/// Time after creation during which a missing focus is not yet taken as the
/// user leaving: the window needs a moment to get focus at all.
pub const GRACE_PERIOD_MS: u64 = 500;

/// Where the window stands in its life.
#[derive(Clone, Copy, Debug, PartialEq, Eq, Structural)]
pub enum LifecycleState {
    /// The user may still type. The initial state.
    AwaitingInput,
    /// Enter was seen and the pipeline launched.
    Triggered,
    /// Focus was lost without Enter, or the window was dismissed; no
    /// pipeline ran.
    Abandoned,
    /// The window has been told to close.
    Closing,
    /// The completion signal was observed; the process may exit.
    Terminated,
}

/// What the UI reports in one refresh.
#[derive(Clone, Copy, Debug, PartialEq, Eq, Structural)]
pub struct FrameSignals {
    /// The text box holds keyboard focus.
    pub has_focus: bool,
    /// Enter went down in this very frame.
    pub enter_pressed: bool,
    /// Milliseconds since the controller was created.
    pub elapsed_ms: u64,
}

impl FrameSignals {
    /// The trigger is not looked at in this frame: the text box holds focus
    /// or the grace period is still running.
    pub open spec fn shielded(self) -> bool {
        self.has_focus || self.elapsed_ms < GRACE_PERIOD_MS
    }
}

/// What one refresh comes to.
#[derive(Clone, Copy, Debug, PartialEq, Eq, Structural)]
pub enum Decision {
    /// Ask for focus on the text box again; nothing else happens.
    KeepFocus,
    /// Launch the pipeline on the current text and close the window.
    Launch,
    /// Release the completion signal at once and close the window.
    Abandon,
    /// Nothing to do: the decision was made in an earlier frame and the
    /// window has been told to close.
    Idle,
}

impl Decision {
    /// The completion signal leaves the controller with this decision: to the
    /// pipeline on `Launch`, into the channel on `Abandon`.
    pub open spec fn hands_signal_on(self) -> bool {
        self is Launch || self is Abandon
    }

    /// The window is told to close with this decision.
    pub open spec fn closes_window(self) -> bool {
        self is Launch || self is Abandon
    }
}

/// Everything that can happen to the window.
#[derive(Clone, Copy, Debug, PartialEq, Eq, Structural)]
pub enum LifecycleEvent {
    /// The UI was refreshed.
    Frame(FrameSignals),
    /// The window went away without the controller having asked for it.
    WindowDismissed,
    /// The close command was passed on to the window.
    CloseRequested,
    /// The completion signal was read.
    CompletionObserved,
}

impl LifecycleState {
    /// What a refresh with `signals` comes to in this state.
    ///
    /// While the text box holds focus or the grace period runs, focus is
    /// asked for again and nothing else happens, in every state: Enter is
    /// not looked at. Otherwise, while input is awaited, Enter launches and
    /// no Enter abandons; once that decision has been made there is nothing
    /// left to do, and the window is not told to close a second time.
    pub open spec fn decision_spec(self, signals: FrameSignals) -> Decision {
        if signals.shielded() {
            Decision::KeepFocus
        } else if self != LifecycleState::AwaitingInput {
            Decision::Idle
        } else if signals.enter_pressed {
            Decision::Launch
        } else {
            Decision::Abandon
        }
    }

    /// What a refresh with `signals` comes to in this state.
    #[verifier::when_used_as_spec(decision_spec)]
    pub fn decision(self, signals: FrameSignals) -> (decision: Decision)
        ensures
            decision == self.decision_spec(signals),
    {
        if signals.has_focus || signals.elapsed_ms < GRACE_PERIOD_MS {
            return Decision::KeepFocus;
        }
        match self {
            LifecycleState::AwaitingInput => {
                if signals.enter_pressed {
                    Decision::Launch
                } else {
                    Decision::Abandon
                }
            },
            _ => Decision::Idle,
        }
    }

    /// The state after a refresh with `signals`.
    pub open spec fn after_frame(self, signals: FrameSignals) -> LifecycleState {
        match self.decision(signals) {
            Decision::Launch => LifecycleState::Triggered,
            Decision::Abandon => LifecycleState::Abandoned,
            Decision::KeepFocus | Decision::Idle => self,
        }
    }

    /// The state once the window has gone away unasked.
    pub open spec fn after_dismissal_spec(self) -> LifecycleState {
        match self {
            LifecycleState::AwaitingInput => LifecycleState::Abandoned,
            _ => self,
        }
    }

    /// The state once the window has gone away unasked: a window dismissed
    /// while input is awaited is abandoned.
    #[verifier::when_used_as_spec(after_dismissal_spec)]
    pub fn after_dismissal(self) -> (next: LifecycleState)
        ensures
            next == self.after_dismissal_spec(),
    {
        match self {
            LifecycleState::AwaitingInput => LifecycleState::Abandoned,
            _ => self,
        }
    }

    /// The state once the window has been told to close.
    pub open spec fn after_close_request_spec(self) -> LifecycleState {
        match self {
            LifecycleState::Triggered | LifecycleState::Abandoned => LifecycleState::Closing,
            _ => self,
        }
    }

    /// The state once the window has been told to close. Only a window whose
    /// fate is decided can be closing.
    #[verifier::when_used_as_spec(after_close_request_spec)]
    pub fn after_close_request(self) -> (next: LifecycleState)
        ensures
            next == self.after_close_request_spec(),
    {
        match self {
            LifecycleState::Triggered | LifecycleState::Abandoned => LifecycleState::Closing,
            _ => self,
        }
    }

    /// The state once the completion signal has been observed.
    pub open spec fn after_completion_spec(self) -> LifecycleState {
        match self {
            LifecycleState::AwaitingInput => LifecycleState::AwaitingInput,
            _ => LifecycleState::Terminated,
        }
    }

    /// The state once the completion signal has been observed. The window may
    /// or may not have been torn down by then; while input is still awaited
    /// no signal can have been written, so nothing changes.
    #[verifier::when_used_as_spec(after_completion_spec)]
    pub fn after_completion(self) -> (next: LifecycleState)
        ensures
            next == self.after_completion_spec(),
    {
        match self {
            LifecycleState::AwaitingInput => LifecycleState::AwaitingInput,
            _ => LifecycleState::Terminated,
        }
    }

    /// The process may exit.
    pub open spec fn may_exit_spec(self) -> bool {
        self == LifecycleState::Terminated
    }

    /// Whether the process may exit: only once the signal was observed.
    #[verifier::when_used_as_spec(may_exit_spec)]
    pub fn may_exit(self) -> (exit: bool)
        ensures
            exit == self.may_exit_spec(),
    {
        match self {
            LifecycleState::Terminated => true,
            _ => false,
        }
    }

    /// The state after `event`.
    pub open spec fn after(self, event: LifecycleEvent) -> LifecycleState {
        match event {
            LifecycleEvent::Frame(signals) => self.after_frame(signals),
            LifecycleEvent::WindowDismissed => self.after_dismissal(),
            LifecycleEvent::CloseRequested => self.after_close_request(),
            LifecycleEvent::CompletionObserved => self.after_completion(),
        }
    }

    /// The completion signal leaves the controller at `event`: a frame
    /// launches or abandons, or the window is dismissed while input is
    /// awaited.
    pub open spec fn hands_signal_on_at(self, event: LifecycleEvent) -> bool {
        match event {
            LifecycleEvent::Frame(signals) => self.decision(signals).hands_signal_on(),
            LifecycleEvent::WindowDismissed => self == LifecycleState::AwaitingInput,
            _ => false,
        }
    }

    /// The window is told to close at `event`.
    pub open spec fn closes_window_at(self, event: LifecycleEvent) -> bool {
        match event {
            LifecycleEvent::Frame(signals) => self.decision(signals).closes_window(),
            _ => false,
        }
    }

    /// The state after a series of events.
    pub open spec fn run(self, events: Seq<LifecycleEvent>) -> LifecycleState
        decreases events.len(),
    {
        if events.len() == 0 {
            self
        } else {
            self.after(events[0]).run(events.drop_first())
        }
    }

    /// At how many of a series of events the completion signal leaves the
    /// controller.
    pub open spec fn handovers(self, events: Seq<LifecycleEvent>) -> nat
        decreases events.len(),
    {
        if events.len() == 0 {
            0
        } else {
            (if self.hands_signal_on_at(events[0]) {
                1nat
            } else {
                0nat
            }) + self.after(events[0]).handovers(events.drop_first())
        }
    }

    /// At how many of a series of events the window is told to close.
    pub open spec fn close_requests(self, events: Seq<LifecycleEvent>) -> nat
        decreases events.len(),
    {
        if events.len() == 0 {
            0
        } else {
            (if self.closes_window_at(events[0]) {
                1nat
            } else {
                0nat
            }) + self.after(events[0]).close_requests(events.drop_first())
        }
    }
}

/// While the text box holds focus or the grace period runs, a refresh asks
/// for focus and does nothing else, whatever the state and whether or not
/// Enter is down: no launch, no signal, no close, and the state stays, so
/// that a later frame can still decide.
pub proof fn lemma_shielded_frame_keeps_focus(state: LifecycleState, signals: FrameSignals)
    requires
        signals.shielded(),
    ensures
        state.decision(signals) == Decision::KeepFocus,
        state.after_frame(signals) == state,
        !state.hands_signal_on_at(LifecycleEvent::Frame(signals)),
        !state.closes_window_at(LifecycleEvent::Frame(signals)),
{
}

/// Whatever happens to the window and for however long, the completion
/// signal leaves the controller at most once and the window is told to close
/// at most once. The signal has left exactly when input is no longer
/// awaited, and the window is only told to close in the step in which the
/// signal leaves.
pub proof fn lemma_signal_handed_on_once(state: LifecycleState, events: Seq<LifecycleEvent>)
    ensures
        state.handovers(events) <= 1,
        state.close_requests(events) <= state.handovers(events),
        state != LifecycleState::AwaitingInput ==> state.handovers(events) == 0 && state.run(events)
            != LifecycleState::AwaitingInput,
        state == LifecycleState::AwaitingInput ==> (state.handovers(events) == 1 <==> state.run(
            events,
        ) != LifecycleState::AwaitingInput),
    decreases events.len(),
{
    if events.len() > 0 {
        lemma_signal_handed_on_once(state.after(events[0]), events.drop_first());
    }
}

/// The process can only be let go after a decision: exit is allowed in
/// `Terminated` alone, `Terminated` is entered by observing the completion
/// signal alone, and never while input is still awaited.
pub proof fn lemma_exit_is_gated(state: LifecycleState, event: LifecycleEvent)
    ensures
        state.after(event).may_exit() && !state.may_exit() ==> event
            == LifecycleEvent::CompletionObserved && state != LifecycleState::AwaitingInput,
        state.after_completion().may_exit() <==> state != LifecycleState::AwaitingInput,
        state.may_exit() ==> state.after(event) == state,
{
}

/// Some frame among `events` launches the pipeline, in a session that begins
/// with input awaited.
pub open spec fn launched(events: Seq<LifecycleEvent>) -> bool {
    launched_from(LifecycleState::AwaitingInput, events)
}

/// Some frame among `events` launches the pipeline, starting from `state`.
pub open spec fn launched_from(state: LifecycleState, events: Seq<LifecycleEvent>) -> bool
    decreases events.len(),
{
    if events.len() == 0 {
        false
    } else {
        (events[0] matches LifecycleEvent::Frame(signals) && state.decision(signals)
            == Decision::Launch) || launched_from(state.after(events[0]), events.drop_first())
    }
}

/// How often the completion signal is written in a whole session: the
/// window goes through `ui`, and the pipeline, if one is launched, is told
/// `events`. A launched pipeline writes the signal when it ends. Where the
/// signal leaves the controller in any other way, by a frame that abandons
/// or by a dismissal, the controller writes it in that step.
pub open spec fn session_releases(
    config: ConfigurationView,
    ui: Seq<LifecycleEvent>,
    events: Seq<EventView>,
) -> nat {
    if launched(ui) {
        PipelineView::started(config).releases(events)
    } else {
        LifecycleState::AwaitingInput.handovers(ui)
    }
}

/// One session, one signal: whatever the UI and the pipeline's surroundings
/// report, the completion signal is written at most once. It is written
/// exactly once when the window is abandoned or dismissed, and exactly once
/// when a pipeline is launched and every stage of it is reported, whether it
/// plays or fails at any stage. While input is awaited it is not written.
pub proof fn lemma_one_signal_per_session(
    config: ConfigurationView,
    ui: Seq<LifecycleEvent>,
    events: Seq<EventView>,
    exchange: ExchangeView,
    enumeration: Option<Seq<Option<Seq<char>>>>,
    played: Result<(), PlaybackError>,
)
    ensures
        session_releases(config, ui, events) <= 1,
        LifecycleState::AwaitingInput.run(ui) == LifecycleState::AwaitingInput ==> session_releases(
            config,
            ui,
            events,
        ) == 0,
        LifecycleState::AwaitingInput.run(ui) != LifecycleState::AwaitingInput && !launched(ui)
            ==> session_releases(config, ui, events) == 1,
        launched(ui) ==> session_releases(config, ui, full_report(exchange, enumeration, played))
            == 1,
{
    lemma_signal_handed_on_once(LifecycleState::AwaitingInput, ui);
    lemma_released_once(PipelineView::started(config), events);
    lemma_full_run(config, exchange, enumeration, played);
    lemma_launch_is_a_handover(LifecycleState::AwaitingInput, ui);
}

/// A launch is one of the ways in which the signal leaves the controller.
proof fn lemma_launch_is_a_handover(state: LifecycleState, events: Seq<LifecycleEvent>)
    ensures
        launched_from(state, events) ==> state.handovers(events) >= 1,
    decreases events.len(),
{
    if events.len() > 0 {
        lemma_launch_is_a_handover(state.after(events[0]), events.drop_first());
    }
}

/// What the controller tells the UI to do after a refresh.
#[derive(Debug)]
pub enum FrameCommand {
    /// Ask for focus on the text box again.
    KeepFocus,
    /// Run `pipeline` on a background thread, beginning with `first_step`,
    /// and tell the window to close. The pipeline holds the completion signal.
    LaunchAndClose { pipeline: Pipeline, first_step: PipelineStep },
    /// Tell the window to close. The completion signal has been released.
    Close,
    /// Nothing to do.
    Idle,
}

impl FrameCommand {
    /// The decision that a command carries out.
    pub open spec fn decision(&self) -> Decision {
        match self {
            FrameCommand::KeepFocus => Decision::KeepFocus,
            FrameCommand::LaunchAndClose { .. } => Decision::Launch,
            FrameCommand::Close => Decision::Abandon,
            FrameCommand::Idle => Decision::Idle,
        }
    }
}

/// The state machine behind the window.
#[derive(Debug)]
pub struct LifecycleController {
    state: LifecycleState,
    config: Configuration,
    signal: Option<CompletionSignal>,
}

impl LifecycleController {
    /// The current state.
    pub closed spec fn state_spec(&self) -> LifecycleState {
        self.state
    }

    /// The configuration that the controller was made with.
    pub closed spec fn config(&self) -> ConfigurationView {
        self.config@
    }

    /// The sending end that the controller will write to or pass on; `None`
    /// once it has done either.
    pub closed spec fn signal_end(&self) -> Option<oneshot::Sender<()>> {
        match self.signal {
            Some(signal) => signal.channel_end(),
            None => None,
        }
    }

    /// The controller still holds the completion signal, unwritten.
    pub open spec fn holds_signal(&self) -> bool {
        self.signal_end() is Some
    }

    /// The controller has written the completion signal itself.
    pub closed spec fn wrote_signal(&self) -> bool {
        self.signal matches Some(signal) && signal.released()
    }

    /// The controller holds the completion signal exactly while input is
    /// awaited: the launch token and the signal are one and the same.
    pub open spec fn wf(&self) -> bool {
        self.holds_signal() <==> self.state_spec() == LifecycleState::AwaitingInput
    }

    /// A controller for a window that has just been created. The signal must
    /// not have been written yet.
    pub fn new(config: Configuration, signal: CompletionSignal) -> (controller: LifecycleController)
        requires
            !signal.released(),
        ensures
            controller.wf(),
            controller.state_spec() == LifecycleState::AwaitingInput,
            controller.config() == config@,
            controller.signal_end() == signal.channel_end(),
            !controller.wrote_signal(),
    {
        LifecycleController { state: LifecycleState::AwaitingInput, config, signal: Some(signal) }
    }

    /// The current state.
    #[verifier::when_used_as_spec(state_spec)]
    pub fn state(&self) -> (state: LifecycleState)
        ensures
            state == self.state_spec(),
    {
        self.state
    }

    /// Whether the process may exit.
    pub fn may_exit(&self) -> (exit: bool)
        ensures
            exit == self.state().may_exit(),
    {
        self.state.may_exit()
    }

    /// Writes the completion signal if the controller still holds it.
    fn release_signal(&mut self)
        ensures
            final(self).state_spec() == old(self).state_spec(),
            final(self).config() == old(self).config(),
            !final(self).holds_signal(),
            old(self).holds_signal() ==> final(self).wrote_signal(),
            !old(self).holds_signal() ==> final(self).wrote_signal() == old(self).wrote_signal(),
    {
        match self.signal.take() {
            Some(mut signal) => {
                signal.release();
                self.signal = Some(signal);
            },
            None => {},
        }
    }

    /// Evaluates one UI refresh.
    ///
    /// `text` is the current content of the text box. The command carries
    /// out the decision of [`LifecycleState::decision`]. On `Launch` the
    /// pipeline is started on a snapshot of the text and the configuration
    /// and takes the completion signal with it, unwritten; on `Abandon` the
    /// controller writes the signal before this function returns. In every
    /// other frame the signal stays where it is.
    pub fn on_frame(&mut self, text: &str, signals: FrameSignals) -> (command: FrameCommand)
        requires
            old(self).wf(),
        ensures
            final(self).wf(),
            final(self).config() == old(self).config(),
            final(self).state() == old(self).state().after_frame(signals),
            command.decision() == old(self).state().decision(signals),
            command matches FrameCommand::LaunchAndClose { pipeline, first_step } ==> {
                &&& pipeline.wf()
                &&& pipeline@ == PipelineView::started(old(self).config())
                &&& pipeline.signal_end() == old(self).signal_end()
                &&& first_step@ == StepView::Send(
                    SynthesisRequest::for_text(text@, old(self).config()),
                )
                &&& !final(self).wrote_signal()
            },
            command.decision() == Decision::Abandon ==> final(self).wrote_signal(),
            !command.decision().hands_signal_on() ==> final(self).signal_end() == old(
                self,
            ).signal_end() && final(self).wrote_signal() == old(self).wrote_signal(),
    {
        match self.state.decision(signals) {
            Decision::KeepFocus => FrameCommand::KeepFocus,
            Decision::Idle => FrameCommand::Idle,
            Decision::Launch => {
                let signal = self.signal.take();
                self.state = LifecycleState::Triggered;
                match signal {
                    Some(signal) => {
                        let (pipeline, first_step) = Pipeline::start(text, &self.config, signal);
                        FrameCommand::LaunchAndClose { pipeline, first_step }
                    },
                    None => FrameCommand::Idle,
                }
            },
            Decision::Abandon => {
                self.release_signal();
                self.state = LifecycleState::Abandoned;
                FrameCommand::Close
            },
        }
    }

    /// Records that the window went away without having been told to. While
    /// input is awaited this abandons the session: the controller writes the
    /// completion signal, so that the process is not kept waiting for a
    /// pipeline that will never run. In every other state nothing changes.
    pub fn window_dismissed(&mut self)
        requires
            old(self).wf(),
        ensures
            final(self).wf(),
            final(self).config() == old(self).config(),
            final(self).state() == old(self).state().after_dismissal(),
            old(self).holds_signal() ==> final(self).wrote_signal(),
            !old(self).holds_signal() ==> final(self).wrote_signal() == old(self).wrote_signal(),
    {
        match self.state {
            LifecycleState::AwaitingInput => {
                self.release_signal();
                self.state = LifecycleState::Abandoned;
            },
            _ => {},
        }
    }

    /// Records that the window has been told to close.
    pub fn close_requested(&mut self)
        requires
            old(self).wf(),
        ensures
            final(self).wf(),
            final(self).config() == old(self).config(),
            final(self).state() == old(self).state().after_close_request(),
            final(self).signal_end() == old(self).signal_end(),
            final(self).wrote_signal() == old(self).wrote_signal(),
    {
        self.state = self.state.after_close_request();
    }

    /// Records that the completion signal has been observed.
    pub fn completion_observed(&mut self)
        requires
            old(self).wf(),
        ensures
            final(self).wf(),
            final(self).config() == old(self).config(),
            final(self).state() == old(self).state().after_completion(),
            final(self).signal_end() == old(self).signal_end(),
            final(self).wrote_signal() == old(self).wrote_signal(),
    {
        self.state = self.state.after_completion();
    }
}

} // verus!
