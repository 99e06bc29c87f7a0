//! What a pipeline run can end in, and the failure taxonomy.

use vstd::prelude::*;
use crate::audio::Span;

verus! {

/// The stage of the pipeline at which a run stopped.
#[derive(Clone, Copy, Debug, PartialEq, Eq, Structural)]
pub enum Stage {
    Synthesize,
    ExtractAudio,
    Decode,
    DeviceLookup,
    Playback,
}

/// Why a stage failed. Every cause belongs to exactly one stage, see [`Cause::stage`].
#[derive(Clone, Copy, Debug, PartialEq, Eq, Structural)]
pub enum Cause {
    /// The provider could not be reached, answered with an error status, or
    /// sent a body in which the parser ran into broken syntax or the end of
    /// the body.
    TransportError,
    /// The parser met a value of another type than a mapping from field
    /// names to strings holds at that place. It stops there: what follows in
    /// the body has not been read and may be broken or cut short.
    ResponseDecodeError,
    /// The response mapping has no `audioContent` field.
    MissingField,
    /// `audioContent` is not valid base64.
    Base64Error,
    /// The decoded bytes are not a linear-PCM container.
    ContainerFormatError,
    /// The host could not list its output devices.
    NoOutputDevicesEnumerated,
    /// No listed device carries the configured name.
    DeviceNotFound,
    /// The device refused to open an output stream.
    StreamOpenError,
    /// The device rejected the sample stream.
    PlaybackSubmitError,
}

/// Failures of the synthesis request.
#[derive(Clone, Copy, Debug, PartialEq, Eq, Structural)]
pub enum SynthesisError {
    TransportError,
    ResponseDecodeError,
}

/// Failures of audio decoding.
#[derive(Clone, Copy, Debug, PartialEq, Eq, Structural)]
pub enum AudioDecodeError {
    Base64Error,
    ContainerFormatError,
}

/// Failures of output device lookup.
#[derive(Clone, Copy, Debug, PartialEq, Eq, Structural)]
pub enum DeviceError {
    NoOutputDevicesEnumerated,
    DeviceNotFound,
}

/// Failures of playback.
#[derive(Clone, Copy, Debug, PartialEq, Eq, Structural)]
pub enum PlaybackError {
    StreamOpenError,
    PlaybackSubmitError,
}

/// A stage together with the reason it failed.
#[derive(Clone, Copy, Debug, PartialEq, Eq, Structural)]
pub struct Failure {
    pub stage: Stage,
    pub cause: Cause,
}

/// The single terminal result of one pipeline run.
#[derive(Clone, Copy, Debug, PartialEq, Eq)]
pub enum PipelineOutcome {
    /// Playback was submitted and the post-roll wait is over. Holds the
    /// duration that the container reported, if it reported one.
    Played(Option<Span>),
    /// The run stopped at `stage` for reason `cause`; no audio was emitted.
    Failed(Stage, Cause),
}

impl Cause {
    /// The stage that a cause belongs to.
    pub open spec fn stage_spec(self) -> Stage {
        match self {
            Cause::TransportError | Cause::ResponseDecodeError => Stage::Synthesize,
            Cause::MissingField => Stage::ExtractAudio,
            Cause::Base64Error | Cause::ContainerFormatError => Stage::Decode,
            Cause::NoOutputDevicesEnumerated | Cause::DeviceNotFound => Stage::DeviceLookup,
            Cause::StreamOpenError | Cause::PlaybackSubmitError => Stage::Playback,
        }
    }

    /// The stage that a cause belongs to.
    #[verifier::when_used_as_spec(stage_spec)]
    pub fn stage(self) -> (stage: Stage)
        ensures
            stage == self.stage_spec(),
    {
        match self {
            Cause::TransportError | Cause::ResponseDecodeError => Stage::Synthesize,
            Cause::MissingField => Stage::ExtractAudio,
            Cause::Base64Error | Cause::ContainerFormatError => Stage::Decode,
            Cause::NoOutputDevicesEnumerated | Cause::DeviceNotFound => Stage::DeviceLookup,
            Cause::StreamOpenError | Cause::PlaybackSubmitError => Stage::Playback,
        }
    }

    /// The failure that this cause stands for: the cause at its own stage.
    pub open spec fn failure_spec(self) -> Failure {
        Failure { stage: self.stage_spec(), cause: self }
    }

    /// The failure that this cause stands for: the cause at its own stage.
    #[verifier::when_used_as_spec(failure_spec)]
    pub fn failure(self) -> (failure: Failure)
        ensures
            failure == self.failure_spec(),
    {
        Failure { stage: self.stage(), cause: self }
    }
}

impl SynthesisError {
    pub open spec fn cause_spec(self) -> Cause {
        match self {
            SynthesisError::TransportError => Cause::TransportError,
            SynthesisError::ResponseDecodeError => Cause::ResponseDecodeError,
        }
    }

    /// The entry of the failure taxonomy for this error.
    #[verifier::when_used_as_spec(cause_spec)]
    pub fn cause(self) -> (cause: Cause)
        ensures
            cause == self.cause_spec(),
            cause.stage() == Stage::Synthesize,
    {
        match self {
            SynthesisError::TransportError => Cause::TransportError,
            SynthesisError::ResponseDecodeError => Cause::ResponseDecodeError,
        }
    }
}

impl AudioDecodeError {
    pub open spec fn cause_spec(self) -> Cause {
        match self {
            AudioDecodeError::Base64Error => Cause::Base64Error,
            AudioDecodeError::ContainerFormatError => Cause::ContainerFormatError,
        }
    }

    /// The entry of the failure taxonomy for this error.
    #[verifier::when_used_as_spec(cause_spec)]
    pub fn cause(self) -> (cause: Cause)
        ensures
            cause == self.cause_spec(),
            cause.stage() == Stage::Decode,
    {
        match self {
            AudioDecodeError::Base64Error => Cause::Base64Error,
            AudioDecodeError::ContainerFormatError => Cause::ContainerFormatError,
        }
    }
}

impl DeviceError {
    pub open spec fn cause_spec(self) -> Cause {
        match self {
            DeviceError::NoOutputDevicesEnumerated => Cause::NoOutputDevicesEnumerated,
            DeviceError::DeviceNotFound => Cause::DeviceNotFound,
        }
    }

    /// The entry of the failure taxonomy for this error.
    #[verifier::when_used_as_spec(cause_spec)]
    pub fn cause(self) -> (cause: Cause)
        ensures
            cause == self.cause_spec(),
            cause.stage() == Stage::DeviceLookup,
    {
        match self {
            DeviceError::NoOutputDevicesEnumerated => Cause::NoOutputDevicesEnumerated,
            DeviceError::DeviceNotFound => Cause::DeviceNotFound,
        }
    }
}

impl PlaybackError {
    pub open spec fn cause_spec(self) -> Cause {
        match self {
            PlaybackError::StreamOpenError => Cause::StreamOpenError,
            PlaybackError::PlaybackSubmitError => Cause::PlaybackSubmitError,
        }
    }

    /// The entry of the failure taxonomy for this error.
    #[verifier::when_used_as_spec(cause_spec)]
    pub fn cause(self) -> (cause: Cause)
        ensures
            cause == self.cause_spec(),
            cause.stage() == Stage::Playback,
    {
        match self {
            PlaybackError::StreamOpenError => Cause::StreamOpenError,
            PlaybackError::PlaybackSubmitError => Cause::PlaybackSubmitError,
        }
    }
}

impl Failure {
    /// The outcome of a run that ended in this failure.
    pub open spec fn outcome_spec(self) -> PipelineOutcome {
        PipelineOutcome::Failed(self.stage, self.cause)
    }

    /// The outcome of a run that ended in this failure.
    #[verifier::when_used_as_spec(outcome_spec)]
    pub fn outcome(self) -> (outcome: PipelineOutcome)
        ensures
            outcome == self.outcome_spec(),
    {
        PipelineOutcome::Failed(self.stage, self.cause)
    }
}

} // verus!
