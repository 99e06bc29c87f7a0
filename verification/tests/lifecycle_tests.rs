use tts_overlay::config::Configuration;
use tts_overlay::lifecycle::{
    FrameCommand, FrameSignals, LifecycleController, LifecycleState, Decision, GRACE_PERIOD_MS,
};
use tts_overlay::outcome::{Cause, PipelineOutcome, Stage};
use tts_overlay::pipeline::{PipelineEvent, PipelineStep};
use tts_overlay::signal::CompletionSignal;
use tts_overlay::synthesis::Exchange;

fn config() -> Configuration {
    Configuration {
        gcloud_token: "test-key".to_string(),
        gcloud_language: "en-US".to_string(),
        gcloud_voice: "en-US-Standard-C".to_string(),
        output_device: "Speakers".to_string(),
    }
}

fn frame(has_focus: bool, enter_pressed: bool, elapsed_ms: u64) -> FrameSignals {
    FrameSignals { has_focus, enter_pressed, elapsed_ms }
}

fn controller() -> (LifecycleController, oneshot::Receiver<()>) {
    let (sender, receiver) = oneshot::channel();
    (LifecycleController::new(config(), CompletionSignal::new(sender)), receiver)
}

#[test]
fn grace_period_is_half_a_second() {
    assert_eq!(GRACE_PERIOD_MS, 500);
}

#[test]
fn new_controller_awaits_input() {
    let (controller, receiver) = controller();
    assert_eq!(controller.state(), LifecycleState::AwaitingInput);
    assert!(!controller.may_exit());
    assert!(receiver.try_recv().is_err());
}

#[test]
fn enter_before_grace_period_is_not_evaluated() {
    let (mut controller, receiver) = controller();
    let command = controller.on_frame("Hello", frame(false, true, 499));
    assert!(matches!(command, FrameCommand::KeepFocus));
    assert_eq!(controller.state(), LifecycleState::AwaitingInput);
    assert!(receiver.try_recv().is_err());
}

#[test]
fn focus_lost_without_enter_abandons() {
    let (mut controller, receiver) = controller();
    let command = controller.on_frame("Hello", frame(false, false, 500));
    assert!(matches!(command, FrameCommand::Close));
    assert_eq!(controller.state(), LifecycleState::Abandoned);
    assert_eq!(receiver.try_recv(), Ok(()));
}

#[test]
fn enter_after_grace_period_launches() {
    let (mut controller, receiver) = controller();
    let command = controller.on_frame("Hello", frame(false, true, 500));
    assert_eq!(controller.state(), LifecycleState::Triggered);
    // The signal travels with the pipeline and is not yet written.
    assert!(receiver.try_recv().is_err());
    match command {
        FrameCommand::LaunchAndClose { mut pipeline, first_step } => {
            match first_step {
                PipelineStep::Send(request) => {
                    assert_eq!(request.text, "Hello");
                    assert_eq!(request.voice_name, "en-US-Standard-C");
                }
                other => panic!("unexpected first step {:?}", other),
            }
            let step = pipeline.advance(PipelineEvent::Reply(Exchange::Unreachable));
            assert_eq!(
                step,
                PipelineStep::Done(PipelineOutcome::Failed(Stage::Synthesize, Cause::TransportError))
            );
            assert_eq!(receiver.try_recv(), Ok(()));
        }
        other => panic!("unexpected command {:?}", other),
    }
}

#[test]
fn held_focus_keeps_focus_whatever_else() {
    let (mut controller, receiver) = controller();
    assert!(matches!(controller.on_frame("", frame(true, false, 0)), FrameCommand::KeepFocus));
    assert!(matches!(controller.on_frame("a", frame(true, true, 10_000)), FrameCommand::KeepFocus));
    assert!(matches!(controller.on_frame("a", frame(true, false, u64::MAX)), FrameCommand::KeepFocus));
    assert_eq!(controller.state(), LifecycleState::AwaitingInput);
    assert!(receiver.try_recv().is_err());
}

#[test]
fn decision_is_made_once() {
    let (mut controller, receiver) = controller();
    assert!(matches!(controller.on_frame("x", frame(false, false, 700)), FrameCommand::Close));
    assert_eq!(receiver.try_recv(), Ok(()));
    assert!(matches!(controller.on_frame("x", frame(false, true, 800)), FrameCommand::Idle));
    assert!(matches!(controller.on_frame("x", frame(false, false, 900)), FrameCommand::Idle));
    assert!(matches!(controller.on_frame("x", frame(true, true, 900)), FrameCommand::KeepFocus));
    assert_eq!(controller.state(), LifecycleState::Abandoned);
    assert!(receiver.try_recv().is_err());
}

#[test]
fn launch_happens_once() {
    let (mut controller, _receiver) = controller();
    assert!(matches!(
        controller.on_frame("x", frame(false, true, 700)),
        FrameCommand::LaunchAndClose { .. }
    ));
    assert!(matches!(controller.on_frame("x", frame(false, true, 800)), FrameCommand::Idle));
    assert_eq!(controller.state(), LifecycleState::Triggered);
}

#[test]
fn dropped_pipeline_still_wakes_the_reader() {
    let (mut controller, receiver) = controller();
    let command = controller.on_frame("x", frame(false, true, 700));
    drop(command);
    assert!(receiver.recv().is_err());
}

#[test]
fn closing_then_terminated() {
    let (mut controller, _receiver) = controller();
    controller.on_frame("x", frame(false, false, 500));
    controller.close_requested();
    assert_eq!(controller.state(), LifecycleState::Closing);
    assert!(!controller.may_exit());
    controller.completion_observed();
    assert_eq!(controller.state(), LifecycleState::Terminated);
    assert!(controller.may_exit());
}

#[test]
fn signal_may_be_observed_before_the_window_is_gone() {
    let (mut controller, _receiver) = controller();
    controller.on_frame("x", frame(false, true, 500));
    controller.completion_observed();
    assert_eq!(controller.state(), LifecycleState::Terminated);
    controller.close_requested();
    assert_eq!(controller.state(), LifecycleState::Terminated);
}

#[test]
fn nothing_closes_or_completes_while_input_is_awaited() {
    let (mut controller, _receiver) = controller();
    controller.close_requested();
    assert_eq!(controller.state(), LifecycleState::AwaitingInput);
    controller.completion_observed();
    assert_eq!(controller.state(), LifecycleState::AwaitingInput);
    assert!(!controller.may_exit());
}

#[test]
fn decision_table() {
    let waiting = LifecycleState::AwaitingInput;
    assert_eq!(waiting.decision(frame(false, true, 0)), Decision::KeepFocus);
    assert_eq!(waiting.decision(frame(false, false, 499)), Decision::KeepFocus);
    assert_eq!(waiting.decision(frame(true, true, 500)), Decision::KeepFocus);
    assert_eq!(waiting.decision(frame(false, true, 500)), Decision::Launch);
    assert_eq!(waiting.decision(frame(false, false, 500)), Decision::Abandon);
    assert_eq!(waiting.decision(frame(false, true, u64::MAX)), Decision::Launch);
    for state in [
        LifecycleState::Triggered,
        LifecycleState::Abandoned,
        LifecycleState::Closing,
        LifecycleState::Terminated,
    ] {
        assert_eq!(state.decision(frame(false, true, 1_000)), Decision::Idle);
        assert_eq!(state.decision(frame(false, false, 500)), Decision::Idle);
        assert_eq!(state.decision(frame(true, false, 0)), Decision::KeepFocus);
        assert_eq!(state.decision(frame(true, true, 1_000)), Decision::KeepFocus);
        assert_eq!(state.decision(frame(false, true, 499)), Decision::KeepFocus);
    }
}

#[test]
fn state_transitions_outside_frames() {
    assert_eq!(LifecycleState::Triggered.after_close_request(), LifecycleState::Closing);
    assert_eq!(LifecycleState::Abandoned.after_close_request(), LifecycleState::Closing);
    assert_eq!(LifecycleState::AwaitingInput.after_close_request(), LifecycleState::AwaitingInput);
    assert_eq!(LifecycleState::Closing.after_close_request(), LifecycleState::Closing);
    assert_eq!(LifecycleState::Terminated.after_close_request(), LifecycleState::Terminated);
    assert_eq!(LifecycleState::Triggered.after_completion(), LifecycleState::Terminated);
    assert_eq!(LifecycleState::Abandoned.after_completion(), LifecycleState::Terminated);
    assert_eq!(LifecycleState::Closing.after_completion(), LifecycleState::Terminated);
    assert_eq!(LifecycleState::Terminated.after_completion(), LifecycleState::Terminated);
    assert_eq!(LifecycleState::AwaitingInput.after_completion(), LifecycleState::AwaitingInput);
    assert!(LifecycleState::Terminated.may_exit());
    assert!(!LifecycleState::Closing.may_exit());
}

#[test]
fn focus_is_asked_for_again_after_a_decision() {
    let (mut controller, receiver) = controller();
    assert!(matches!(
        controller.on_frame("x", frame(false, true, 600)),
        FrameCommand::LaunchAndClose { .. }
    ));
    assert!(matches!(controller.on_frame("x", frame(true, false, 700)), FrameCommand::KeepFocus));
    assert!(matches!(controller.on_frame("x", frame(true, true, 800)), FrameCommand::KeepFocus));
    assert_eq!(controller.state(), LifecycleState::Triggered);
    controller.close_requested();
    assert!(matches!(controller.on_frame("x", frame(true, true, 900)), FrameCommand::KeepFocus));
    assert!(matches!(controller.on_frame("x", frame(false, true, 900)), FrameCommand::Idle));
    assert_eq!(controller.state(), LifecycleState::Closing);
    drop(controller);
    assert!(receiver.try_recv().is_err());
}

#[test]
fn dismissed_window_is_abandoned_and_releases_the_signal() {
    let (mut controller, receiver) = controller();
    assert!(matches!(controller.on_frame("x", frame(true, false, 100)), FrameCommand::KeepFocus));
    controller.window_dismissed();
    assert_eq!(controller.state(), LifecycleState::Abandoned);
    assert_eq!(receiver.try_recv(), Ok(()));
    controller.completion_observed();
    assert!(controller.may_exit());
}

#[test]
fn dismissal_after_a_decision_changes_nothing() {
    let (mut controller, receiver) = controller();
    controller.on_frame("x", frame(false, false, 500));
    assert_eq!(receiver.try_recv(), Ok(()));
    controller.window_dismissed();
    assert_eq!(controller.state(), LifecycleState::Abandoned);
    controller.close_requested();
    controller.window_dismissed();
    assert_eq!(controller.state(), LifecycleState::Closing);
    assert!(receiver.try_recv().is_err());
}

#[test]
fn dismissal_after_launch_leaves_the_signal_with_the_pipeline() {
    let (mut controller, receiver) = controller();
    let command = controller.on_frame("x", frame(false, true, 500));
    controller.window_dismissed();
    assert_eq!(controller.state(), LifecycleState::Triggered);
    assert!(receiver.try_recv().is_err());
    match command {
        FrameCommand::LaunchAndClose { mut pipeline, .. } => {
            pipeline.advance(PipelineEvent::Reply(Exchange::Unreachable));
        }
        _ => panic!("the frame should have launched"),
    }
    assert_eq!(receiver.try_recv(), Ok(()));
}

#[test]
fn dismissal_transitions() {
    assert_eq!(LifecycleState::AwaitingInput.after_dismissal(), LifecycleState::Abandoned);
    assert_eq!(LifecycleState::Triggered.after_dismissal(), LifecycleState::Triggered);
    assert_eq!(LifecycleState::Abandoned.after_dismissal(), LifecycleState::Abandoned);
    assert_eq!(LifecycleState::Closing.after_dismissal(), LifecycleState::Closing);
    assert_eq!(LifecycleState::Terminated.after_dismissal(), LifecycleState::Terminated);
}
