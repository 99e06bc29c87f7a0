//! The synthesize-and-play pipeline as a state machine.
//!
//! The pipeline alternates between work that only the caller can do (the
//! HTTP exchange, listing devices, playing, sleeping) and decisions. The
//! decisions live here: the caller performs the step it is handed and reports
//! back with an event. Stages run in strict order and the first failure ends
//! the run; nothing is retried. When the run ends, however it ends, the
//! completion signal is released.

use vstd::prelude::*;
use crate::audio::{decode, decoding, post_roll_nanos, post_roll_wait, DecodedAudio, DecodedAudioView, Span};
use crate::config::{Configuration, ConfigurationView};
use crate::device::{resolution, resolve, OutputDevice, OutputDeviceView};
use crate::outcome::{Cause, DeviceError, Failure, PipelineOutcome, PlaybackError};
use crate::signal::CompletionSignal;
use crate::synthesis::{read_exchange, response_of, Exchange, ExchangeView, SynthesisRequest, SynthesisRequestView, AUDIO_CONTENT_FIELD};

verus! {

/// What the caller reports back after performing a step.
#[derive(Debug)]
pub enum PipelineEvent {
    /// The HTTP exchange is over.
    Reply(Exchange),
    /// The host's output devices were enumerated: `None` where the host
    /// could not list them, an inner `None` for a device without a readable
    /// name.
    Devices(Option<Vec<Option<String>>>),
    /// The output stream was opened and the audio submitted, or not.
    Playback(Result<(), PlaybackError>),
    /// The post-roll wait is over.
    WaitElapsed,
}

/// A [`PipelineEvent`] as plain values.
pub enum EventView {
    Reply(ExchangeView),
    Devices(Option<Seq<Option<Seq<char>>>>),
    Playback(Result<(), PlaybackError>),
    WaitElapsed,
}

impl View for PipelineEvent {
    type V = EventView;

    open spec fn view(&self) -> EventView {
        match self {
            PipelineEvent::Reply(exchange) => EventView::Reply(exchange@),
            PipelineEvent::Devices(enumeration) => EventView::Devices(enumeration.deep_view()),
            PipelineEvent::Playback(played) => EventView::Playback(*played),
            PipelineEvent::WaitElapsed => EventView::WaitElapsed,
        }
    }
}

/// What the caller is to do next.
#[derive(Debug, PartialEq, Eq)]
pub enum PipelineStep {
    /// POST the request to the provider, once, and report `Reply`.
    Send(SynthesisRequest),
    /// Enumerate the host's output devices and report `Devices`.
    ListDevices,
    /// Open one output stream on `device`, submit `audio` and report
    /// `Playback`. The device's index refers to the enumeration just reported.
    Play { device: OutputDevice, audio: DecodedAudio },
    /// Sleep for `nanos` nanoseconds and report `WaitElapsed`.
    Wait { nanos: u128 },
    /// The run is over and the completion signal has been released.
    Done(PipelineOutcome),
    /// The event was not the one awaited: nothing changed, carry on.
    Unchanged,
}

/// A [`PipelineStep`] as plain values.
pub enum StepView {
    Send(SynthesisRequestView),
    ListDevices,
    Play { device: OutputDeviceView, audio: DecodedAudioView },
    Wait { nanos: nat },
    Done(PipelineOutcome),
    Unchanged,
}

impl View for PipelineStep {
    type V = StepView;

    open spec fn view(&self) -> StepView {
        match self {
            PipelineStep::Send(request) => StepView::Send(request@),
            PipelineStep::ListDevices => StepView::ListDevices,
            PipelineStep::Play { device, audio } => StepView::Play { device: device@, audio: audio@ },
            PipelineStep::Wait { nanos } => StepView::Wait { nanos: *nanos as nat },
            PipelineStep::Done(outcome) => StepView::Done(*outcome),
            PipelineStep::Unchanged => StepView::Unchanged,
        }
    }
}

/// How far a run has come.
#[derive(Debug)]
enum Progress {
    AwaitingReply,
    AwaitingDevices { audio: DecodedAudio },
    AwaitingPlayback { duration: Option<Span> },
    PostRoll { duration: Option<Span> },
    Finished { outcome: PipelineOutcome },
}

/// How far a run has come, as plain values.
pub enum ProgressView {
    /// The request is out; the reply is awaited.
    AwaitingReply,
    /// The audio is decoded; the device list is awaited.
    AwaitingDevices { audio: DecodedAudioView },
    /// The device is chosen; the result of playback is awaited.
    AwaitingPlayback { duration: Option<Span> },
    /// Playback was submitted; the end of the post-roll wait is awaited.
    PostRoll { duration: Option<Span> },
    /// The run is over.
    Finished { outcome: PipelineOutcome },
}

/// One run of the pipeline.
#[derive(Debug)]
pub struct Pipeline {
    target_device: String,
    progress: Progress,
    signal: CompletionSignal,
}

/// A [`Pipeline`] as plain values.
pub struct PipelineView {
    pub target_device: Seq<char>,
    pub progress: ProgressView,
}

impl PipelineView {
    /// The same run at another point.
    pub open spec fn at(self, progress: ProgressView) -> PipelineView {
        PipelineView { target_device: self.target_device, progress }
    }

    /// The run is over.
    pub open spec fn finished(self) -> bool {
        self.progress is Finished
    }

    /// The run as it starts: the request is out.
    pub open spec fn started(config: ConfigurationView) -> PipelineView {
        PipelineView { target_device: config.output_device, progress: ProgressView::AwaitingReply }
    }

    /// The run ended with `failure`.
    pub open spec fn failed(self, failure: Failure) -> (PipelineView, StepView) {
        (
            self.at(ProgressView::Finished { outcome: failure.outcome() }),
            StepView::Done(failure.outcome()),
        )
    }

    /// The reply was read: on to device lookup with the audio, or the end.
    pub open spec fn after_audio(self, heard: Result<DecodedAudioView, Failure>) -> (
        PipelineView,
        StepView,
    ) {
        match self.progress {
            ProgressView::AwaitingReply => match heard {
                Ok(audio) => (self.at(ProgressView::AwaitingDevices { audio }), StepView::ListDevices),
                Err(failure) => self.failed(failure),
            },
            _ => (self, StepView::Unchanged),
        }
    }

    /// The device was looked up: on to playback on it, or the end.
    pub open spec fn after_lookup(self, resolved: Result<OutputDeviceView, DeviceError>) -> (
        PipelineView,
        StepView,
    ) {
        match self.progress {
            ProgressView::AwaitingDevices { audio } => match resolved {
                Ok(device) => (
                    self.at(ProgressView::AwaitingPlayback { duration: audio.duration }),
                    StepView::Play { device, audio },
                ),
                Err(error) => self.failed(error.cause().failure()),
            },
            _ => (self, StepView::Unchanged),
        }
    }

    /// Playback was attempted: on to the post-roll wait, or the end.
    pub open spec fn after_playback(self, played: Result<(), PlaybackError>) -> (
        PipelineView,
        StepView,
    ) {
        match self.progress {
            ProgressView::AwaitingPlayback { duration } => match played {
                Ok(()) => (
                    self.at(ProgressView::PostRoll { duration }),
                    StepView::Wait { nanos: post_roll_nanos(duration) },
                ),
                Err(error) => self.failed(error.cause().failure()),
            },
            _ => (self, StepView::Unchanged),
        }
    }

    /// The post-roll wait is over: the audio has played.
    pub open spec fn after_wait(self) -> (PipelineView, StepView) {
        match self.progress {
            ProgressView::PostRoll { duration } => (
                self.at(ProgressView::Finished { outcome: PipelineOutcome::Played(duration) }),
                StepView::Done(PipelineOutcome::Played(duration)),
            ),
            _ => (self, StepView::Unchanged),
        }
    }

    /// The transition function: the run after `event`, and the step handed
    /// to the caller. An event that is not awaited changes nothing.
    pub open spec fn step(self, event: EventView) -> (PipelineView, StepView) {
        match event {
            EventView::Reply(exchange) => self.after_audio(heard(exchange)),
            EventView::Devices(enumeration) => self.after_lookup(
                resolution(self.target_device, enumeration),
            ),
            EventView::Playback(played) => self.after_playback(played),
            EventView::WaitElapsed => self.after_wait(),
        }
    }

    /// The completion signal is released by this event: the run ends here.
    pub open spec fn releases_at(self, event: EventView) -> bool {
        !self.finished() && self.step(event).0.finished()
    }

    /// The run after a series of events.
    pub open spec fn run(self, events: Seq<EventView>) -> PipelineView
        decreases events.len(),
    {
        if events.len() == 0 {
            self
        } else {
            self.step(events[0]).0.run(events.drop_first())
        }
    }

    /// How often the completion signal is released over a series of events.
    pub open spec fn releases(self, events: Seq<EventView>) -> nat
        decreases events.len(),
    {
        if events.len() == 0 {
            0
        } else {
            (if self.releases_at(events[0]) {
                1nat
            } else {
                0nat
            }) + self.step(events[0]).0.releases(events.drop_first())
        }
    }
}

/// The audio in a response mapping: `MissingField` where the mapping has no
/// `audioContent`, whatever else it holds; else what decoding makes of it.
pub open spec fn audio_of(fields: Map<Seq<char>, Seq<char>>) -> Result<DecodedAudioView, Failure> {
    if !fields.contains_key(AUDIO_CONTENT_FIELD@) {
        Err(Cause::MissingField.failure())
    } else {
        match decoding(fields[AUDIO_CONTENT_FIELD@]) {
            Ok(audio) => Ok(audio),
            Err(error) => Err(error.cause().failure()),
        }
    }
}

/// What the exchange yields: the decoded audio, or the first failure among
/// synthesis, extraction and decoding.
pub open spec fn heard(exchange: ExchangeView) -> Result<DecodedAudioView, Failure> {
    match response_of(exchange) {
        Ok(fields) => audio_of(fields),
        Err(error) => Err(error.cause().failure()),
    }
}

/// A result of [`hear`] as plain values.
pub open spec fn heard_view(heard: Result<DecodedAudio, Failure>) -> Result<DecodedAudioView, Failure> {
    match heard {
        Ok(audio) => Ok(audio@),
        Err(failure) => Err(failure),
    }
}

/// A result of device lookup as plain values.
pub open spec fn resolved_view(resolved: Result<OutputDevice, DeviceError>) -> Result<
    OutputDeviceView,
    DeviceError,
> {
    match resolved {
        Ok(device) => Ok(device@),
        Err(error) => Err(error),
    }
}

/// Runs the stages that need no device: reads the exchange as a response,
/// takes `audioContent` out of it and decodes that. Stops at the first
/// failure; a response without `audioContent` is never handed to a decoder.
pub fn hear(exchange: &Exchange) -> (r: Result<DecodedAudio, Failure>)
    ensures
        heard_view(r) == heard(exchange@),
{
    match read_exchange(exchange) {
        Err(error) => Err(error.cause().failure()),
        Ok(response) => match response.audio_content() {
            None => Err(Cause::MissingField.failure()),
            Some(payload) => match decode(payload.as_str()) {
                Ok(audio) => Ok(audio),
                Err(error) => Err(error.cause().failure()),
            },
        },
    }
}

/// The whole pipeline in one expression: what a run ends in when the provider
/// answers with `exchange`, the host lists `enumeration` and playback ends in
/// `played`. Stages are taken in order and the first failure decides.
pub open spec fn outcome_of(
    target_device: Seq<char>,
    exchange: ExchangeView,
    enumeration: Option<Seq<Option<Seq<char>>>>,
    played: Result<(), PlaybackError>,
) -> PipelineOutcome {
    match heard(exchange) {
        Err(failure) => failure.outcome(),
        Ok(audio) => match resolution(target_device, enumeration) {
            Err(error) => error.cause().failure().outcome(),
            Ok(device) => match played {
                Err(error) => error.cause().failure().outcome(),
                Ok(()) => PipelineOutcome::Played(audio.duration),
            },
        },
    }
}

/// The events of a run in which every stage is reported, in order.
pub open spec fn full_report(
    exchange: ExchangeView,
    enumeration: Option<Seq<Option<Seq<char>>>>,
    played: Result<(), PlaybackError>,
) -> Seq<EventView> {
    seq![
        EventView::Reply(exchange),
        EventView::Devices(enumeration),
        EventView::Playback(played),
        EventView::WaitElapsed,
    ]
}

/// A run that is over stays as it is: every further event is answered with
/// `Unchanged` and releases nothing.
pub proof fn lemma_finished_is_final(run: PipelineView, event: EventView)
    requires
        run.finished(),
    ensures
        run.step(event) == (run, StepView::Unchanged),
        !run.releases_at(event),
{
}

/// A response mapping without `audioContent` always ends the run with
/// `Failed(ExtractAudio, MissingField)`, whatever a decoder would have made
/// of anything else in it.
pub proof fn lemma_missing_audio_content(config: ConfigurationView, exchange: ExchangeView)
    requires
        response_of(exchange) matches Ok(fields) && !fields.contains_key(AUDIO_CONTENT_FIELD@),
    ensures
        heard(exchange) == Err::<DecodedAudioView, Failure>(
            Failure { stage: crate::outcome::Stage::ExtractAudio, cause: Cause::MissingField },
        ),
        PipelineView::started(config).step(EventView::Reply(exchange)).1 == StepView::Done(
            PipelineOutcome::Failed(crate::outcome::Stage::ExtractAudio, Cause::MissingField),
        ),
        PipelineView::started(config).releases_at(EventView::Reply(exchange)),
{
}

/// Every failure that the stages before playback report names the stage
/// that its cause belongs to.
pub proof fn lemma_failures_name_their_stage(exchange: ExchangeView)
    ensures
        heard(exchange) matches Err(failure) ==> failure.stage == failure.cause.stage(),
{
}

/// Audio is handed out for playing only by the report of a device list to a
/// run that holds decoded audio, and only where the lookup found the
/// device: every earlier stage has then succeeded. A run that fails never
/// hands out audio in the step that ends it.
pub proof fn lemma_play_needs_every_stage(run: PipelineView, event: EventView)
    ensures
        run.step(event).1 matches StepView::Play { device, audio } ==> {
            &&& run.progress == ProgressView::AwaitingDevices { audio }
            &&& event matches EventView::Devices(enumeration)
            &&& resolution(run.target_device, enumeration) == Ok::<OutputDeviceView, DeviceError>(
                device,
            )
        },
        run.step(event).0.progress is AwaitingDevices && !(run.progress is AwaitingDevices) ==> {
            &&& event matches EventView::Reply(exchange)
            &&& heard(exchange) is Ok
        },
{
}

/// Over any series of events the completion signal is released at most
/// once, and it has been released exactly when the run is over.
pub proof fn lemma_released_once(run: PipelineView, events: Seq<EventView>)
    ensures
        run.releases(events) <= 1,
        run.finished() ==> run.releases(events) == 0 && run.run(events) == run,
        !run.finished() ==> (run.run(events).finished() <==> run.releases(events) == 1),
    decreases events.len(),
{
    if events.len() > 0 {
        let next = run.step(events[0]).0;
        lemma_released_once(next, events.drop_first());
        if run.finished() {
            lemma_finished_is_final(run, events[0]);
        }
    }
}

/// A run in which every stage is reported ends in the outcome that
/// [`outcome_of`] states, and releases the completion signal exactly once,
/// whether it plays or fails at any stage.
pub proof fn lemma_full_run(
    config: ConfigurationView,
    exchange: ExchangeView,
    enumeration: Option<Seq<Option<Seq<char>>>>,
    played: Result<(), PlaybackError>,
)
    ensures
        PipelineView::started(config).run(full_report(exchange, enumeration, played)).progress
            == (ProgressView::Finished {
            outcome: outcome_of(config.output_device, exchange, enumeration, played),
        }),
        PipelineView::started(config).releases(full_report(exchange, enumeration, played)) == 1,
{
    let events = full_report(exchange, enumeration, played);
    let s0 = PipelineView::started(config);
    let s1 = s0.step(events[0]).0;
    let s2 = s1.step(events[1]).0;
    let s3 = s2.step(events[2]).0;
    let s4 = s3.step(events[3]).0;
    let e1 = events.drop_first();
    let e2 = e1.drop_first();
    let e3 = e2.drop_first();
    let e4 = e3.drop_first();
    assert(e4.len() == 0);
    assert(s4.run(e4) == s4);
    assert(s3.run(e3) == s4);
    assert(s2.run(e2) == s4);
    assert(s1.run(e1) == s4);
    assert(s0.run(events) == s4);
    assert(s4.progress == (ProgressView::Finished {
        outcome: outcome_of(config.output_device, exchange, enumeration, played),
    }));
    lemma_released_once(s0, events);
}

impl View for Pipeline {
    type V = PipelineView;

    closed spec fn view(&self) -> PipelineView {
        PipelineView {
            target_device: self.target_device@,
            progress: match self.progress {
                Progress::AwaitingReply => ProgressView::AwaitingReply,
                Progress::AwaitingDevices { audio } => ProgressView::AwaitingDevices { audio: audio@ },
                Progress::AwaitingPlayback { duration } => ProgressView::AwaitingPlayback { duration },
                Progress::PostRoll { duration } => ProgressView::PostRoll { duration },
                Progress::Finished { outcome } => ProgressView::Finished { outcome },
            },
        }
    }
}

impl Pipeline {
    /// The sending end that the run will write to when it ends; `None` once
    /// it has written.
    pub closed spec fn signal_end(&self) -> Option<oneshot::Sender<()>> {
        self.signal.channel_end()
    }

    /// The run holds the completion signal unwritten.
    pub open spec fn holds_signal(&self) -> bool {
        self.signal_end() is Some
    }

    /// The completion signal is unwritten exactly until the run is over.
    pub open spec fn wf(&self) -> bool {
        self.holds_signal() <==> !self@.finished()
    }

    /// Starts a run for `text`: builds the request and takes charge of the
    /// completion signal, which must not have been written yet. The first
    /// step is always to send the request.
    pub fn start(text: &str, config: &Configuration, signal: CompletionSignal) -> (started: (
        Pipeline,
        PipelineStep,
    ))
        requires
            !signal.released(),
        ensures
            started.0.wf(),
            started.0.signal_end() == signal.channel_end(),
            started.0@ == PipelineView::started(config@),
            started.1@ == StepView::Send(SynthesisRequest::for_text(text@, config@)),
    {
        let pipeline = Pipeline {
            target_device: config.output_device.clone(),
            progress: Progress::AwaitingReply,
            signal,
        };
        (pipeline, PipelineStep::Send(SynthesisRequest::build(text, config)))
    }

    /// Whether the run is over.
    pub fn is_finished(&self) -> (finished: bool)
        ensures
            finished == self@.finished(),
    {
        match &self.progress {
            Progress::Finished { .. } => true,
            _ => false,
        }
    }

    /// The outcome, once the run is over.
    pub fn outcome(&self) -> (outcome: Option<PipelineOutcome>)
        ensures
            outcome == (match self@.progress {
                ProgressView::Finished { outcome } => Some(outcome),
                _ => None,
            }),
    {
        match &self.progress {
            Progress::Finished { outcome } => Some(*outcome),
            _ => None,
        }
    }

    /// Ends the run: releases the completion signal and records the outcome.
    fn finish(&mut self, outcome: PipelineOutcome) -> (step: PipelineStep)
        requires
            old(self).wf(),
            !old(self)@.finished(),
        ensures
            final(self).wf(),
            final(self)@ == old(self)@.at(ProgressView::Finished { outcome }),
            step@ == StepView::Done(outcome),
    {
        self.signal.release();
        self.progress = Progress::Finished { outcome };
        PipelineStep::Done(outcome)
    }

    /// Takes the result of the stages up to decoding. Awaited only while the
    /// reply is outstanding.
    pub fn on_audio(&mut self, heard: Result<DecodedAudio, Failure>) -> (step: PipelineStep)
        requires
            old(self).wf(),
        ensures
            final(self).wf(),
            final(self)@.finished() == old(self)@.finished() ==> final(self).signal_end() == old(
                self,
            ).signal_end(),
            (final(self)@, step@) == old(self)@.after_audio(heard_view(heard)),
    {
        match &self.progress {
            Progress::AwaitingReply => match heard {
                Ok(audio) => {
                    self.progress = Progress::AwaitingDevices { audio };
                    PipelineStep::ListDevices
                },
                Err(failure) => self.finish(failure.outcome()),
            },
            _ => PipelineStep::Unchanged,
        }
    }

    /// Takes the result of device lookup. Awaited only while the device list
    /// is outstanding.
    pub fn on_lookup(&mut self, resolved: Result<OutputDevice, DeviceError>) -> (step: PipelineStep)
        requires
            old(self).wf(),
        ensures
            final(self).wf(),
            final(self)@.finished() == old(self)@.finished() ==> final(self).signal_end() == old(
                self,
            ).signal_end(),
            (final(self)@, step@) == old(self)@.after_lookup(resolved_view(resolved)),
    {
        if !matches!(self.progress, Progress::AwaitingDevices { .. }) {
            return PipelineStep::Unchanged;
        }
        match resolved {
            Ok(device) => {
                let mut taken = Progress::AwaitingReply;
                std::mem::swap(&mut self.progress, &mut taken);
                match taken {
                    Progress::AwaitingDevices { audio } => {
                        self.progress = Progress::AwaitingPlayback { duration: audio.duration };
                        PipelineStep::Play { device, audio }
                    },
                    _ => PipelineStep::Unchanged,
                }
            },
            Err(error) => self.finish(error.cause().failure().outcome()),
        }
    }

    /// Takes the result of playback. Awaited only while playback is
    /// outstanding.
    pub fn on_playback(&mut self, played: Result<(), PlaybackError>) -> (step: PipelineStep)
        requires
            old(self).wf(),
        ensures
            final(self).wf(),
            final(self)@.finished() == old(self)@.finished() ==> final(self).signal_end() == old(
                self,
            ).signal_end(),
            (final(self)@, step@) == old(self)@.after_playback(played),
    {
        match &self.progress {
            Progress::AwaitingPlayback { duration } => {
                let duration = *duration;
                match played {
                    Ok(()) => {
                        self.progress = Progress::PostRoll { duration };
                        PipelineStep::Wait { nanos: post_roll_wait(duration) }
                    },
                    Err(error) => self.finish(error.cause().failure().outcome()),
                }
            },
            _ => PipelineStep::Unchanged,
        }
    }

    /// Takes the end of the post-roll wait. Awaited only during that wait.
    pub fn on_wait_elapsed(&mut self) -> (step: PipelineStep)
        requires
            old(self).wf(),
        ensures
            final(self).wf(),
            final(self)@.finished() == old(self)@.finished() ==> final(self).signal_end() == old(
                self,
            ).signal_end(),
            (final(self)@, step@) == old(self)@.after_wait(),
    {
        match &self.progress {
            Progress::PostRoll { duration } => {
                let duration = *duration;
                self.finish(PipelineOutcome::Played(duration))
            },
            _ => PipelineStep::Unchanged,
        }
    }

    /// Advances the run by one event and says what to do next.
    ///
    /// The awaited event moves the run to its next stage or, on failure, to
    /// its end; any other event leaves it as it is. The completion signal is
    /// released in the step that ends the run and in no other.
    pub fn advance(&mut self, event: PipelineEvent) -> (step: PipelineStep)
        requires
            old(self).wf(),
        ensures
            final(self).wf(),
            (final(self)@, step@) == old(self)@.step(event@),
            old(self).holds_signal() && !final(self).holds_signal() <==> old(self)@.releases_at(
                event@,
            ),
            !old(self)@.releases_at(event@) ==> final(self).signal_end() == old(self).signal_end(),
    {
        match event {
            PipelineEvent::Reply(exchange) => {
                if matches!(self.progress, Progress::AwaitingReply) {
                    self.on_audio(hear(&exchange))
                } else {
                    PipelineStep::Unchanged
                }
            },
            PipelineEvent::Devices(enumeration) => {
                let resolved = resolve(&self.target_device, &enumeration);
                self.on_lookup(resolved)
            },
            PipelineEvent::Playback(played) => self.on_playback(played),
            PipelineEvent::WaitElapsed => self.on_wait_elapsed(),
        }
    }
}

} // verus!
