//! Decoding of the provider's audio payload.
//!
//! The payload is base64 text that holds a linear-PCM (WAV) container. The
//! base64 alphabet and the container format are the business of the `base64`
//! and `rodio` crates; this module calls them and decides what their answers
//! mean for the pipeline.

use vstd::prelude::*;
use crate::container::{layout, linear16_header, scan, WavLayout};
use crate::outcome::AudioDecodeError;

verus! {

/// `base64::DecodeError`, carried through unread.
#[verifier::external_type_specification]
#[verifier::external_body]
pub struct ExBase64DecodeError(base64::DecodeError);

/// `rodio::decoder::DecoderError`, carried through unread.
#[verifier::external_type_specification]
#[verifier::external_body]
pub struct ExContainerError(rodio::decoder::DecoderError);

/// What `base64`'s standard engine (standard alphabet, canonical padding
/// required) makes of a text: the bytes it decodes to, or `None` where the
/// engine rejects the text.
pub uninterp spec fn base64_standard_decoding(text: Seq<char>) -> Option<Seq<u8>>;

/// What `rodio`'s WAV decoder makes of a byte string: `None` where it refuses
/// the bytes, else the total duration it reports as whole seconds and
/// nanoseconds below one second, or an inner `None` where it reports none.
pub uninterp spec fn wav_total_duration(container: Seq<u8>) -> Option<Option<(u64, u32)>>;

/// Nanoseconds in one second.
pub const NANOS_PER_SECOND: u128 = 1_000_000_000;

/// The safety margin added to every post-roll wait: 500 ms.
pub const POST_ROLL_MARGIN_NS: u128 = 500_000_000;

/// The duration assumed for the post-roll wait when the container reports none: 25 s.
pub const FALLBACK_DURATION_NS: u128 = 25_000_000_000;

/// Calls `base64::Engine::decode` on `base64::engine::general_purpose::STANDARD`
/// with the UTF-8 bytes of `text`. The contract only gives the result its
/// name: equal texts decode alike, the bytes on success, a rejection otherwise.
#[verifier::external_body]
fn base64_decode(text: &str) -> (r: Result<Vec<u8>, base64::DecodeError>)
    ensures
        match r {
            Ok(bytes) => base64_standard_decoding(text@) == Some(bytes@),
            Err(_) => base64_standard_decoding(text@) is None,
        },
{
    base64::Engine::decode(&base64::engine::general_purpose::STANDARD, text)
}

/// A reported duration as one count of nanoseconds; nothing reported counts
/// as none.
pub open spec fn reported_nanos(reported: Option<(u64, u32)>) -> nat {
    match reported {
        Some((secs, subsec_nanos)) => (secs as nat) * 1_000_000_000 + subsec_nanos as nat,
        None => 0,
    }
}

/// Calls `rodio::Decoder::new_wav` on an in-memory cursor over a copy of
/// `container` and reads `rodio::Source::total_duration` off the decoder,
/// handing it out as `Duration::as_secs` and `Duration::subsec_nanos`.
///
/// Only called on bytes whose header has been walked. The decoder searches
/// its input for anything it knows, and it stops the process on a format
/// chunk that declares a sample rate of zero; behind a walked header it finds
/// the container at the first byte, meets the chunks that the walk met, and
/// the one format chunk declares a rate above zero.
///
/// The contract gives the result its name, so that equal bytes are judged
/// alike, and says of an accepted container what the decoder's source shows:
/// the duration is the number of whole frames over the sample rate, computed
/// in floating point and cut to nanoseconds, and no duration is reported
/// where that comes to nothing. Both lie within a millisecond of the exact
/// quotient.
#[verifier::external_body]
fn wav_probe(container: &Vec<u8>) -> (r: Result<Option<(u64, u32)>, rodio::decoder::DecoderError>)
    requires
        layout(container@) is Some,
    ensures
        match r {
            Ok(reported) => wav_total_duration(container@) == Some(reported) && layout(
                container@,
            ).unwrap().computes(reported_nanos(reported)),
            Err(_) => wav_total_duration(container@) is None,
        },
{
    let decoder = rodio::Decoder::new_wav(std::io::Cursor::new(container.clone()))?;
    match rodio::Source::total_duration(&decoder) {
        Some(duration) => Ok(Some((duration.as_secs(), duration.subsec_nanos()))),
        None => Ok(None),
    }
}

/// A length of time as the decoder reports it: whole seconds and the
/// nanoseconds beyond them.
#[derive(Clone, Copy, Debug, PartialEq, Eq, Structural)]
pub struct Span {
    pub secs: u64,
    pub subsec_nanos: u32,
}

impl Span {
    /// The span as one count of nanoseconds.
    pub open spec fn nanos(self) -> nat {
        (self.secs as nat) * (NANOS_PER_SECOND as nat) + self.subsec_nanos as nat
    }

    /// The span as one count of nanoseconds.
    pub fn as_nanos(self) -> (ns: u128)
        ensures
            ns == self.nanos(),
    {
        (self.secs as u128) * NANOS_PER_SECOND + (self.subsec_nanos as u128)
    }
}

/// How long to wait after submitting playback before the device may be
/// released: the reported duration, or 25 s where none was reported, plus a
/// margin of 500 ms.
pub open spec fn post_roll_nanos(duration: Option<Span>) -> nat {
    match duration {
        Some(span) => span.nanos() + POST_ROLL_MARGIN_NS as nat,
        None => (FALLBACK_DURATION_NS + POST_ROLL_MARGIN_NS) as nat,
    }
}

/// How long to wait after submitting playback, in nanoseconds. The fallback
/// only times the wait; playback itself always runs the whole stream.
pub fn post_roll_wait(duration: Option<Span>) -> (ns: u128)
    ensures
        ns == post_roll_nanos(duration),
{
    match duration {
        Some(span) => span.as_nanos() + POST_ROLL_MARGIN_NS,
        None => FALLBACK_DURATION_NS + POST_ROLL_MARGIN_NS,
    }
}

/// Audio that is ready to play: the container bytes, which stand for the
/// sample stream, and the total duration if the container gives one.
#[derive(Clone, Debug, PartialEq, Eq)]
pub struct DecodedAudio {
    pub container: Vec<u8>,
    pub duration: Option<Span>,
}

/// A [`DecodedAudio`] as plain values.
pub struct DecodedAudioView {
    pub container: Seq<u8>,
    pub duration: Option<Span>,
}

impl View for DecodedAudio {
    type V = DecodedAudioView;

    open spec fn view(&self) -> DecodedAudioView {
        DecodedAudioView { container: self.container@, duration: self.duration }
    }
}

/// A reported duration as a [`Span`].
pub open spec fn span_of(reported: Option<(u64, u32)>) -> Option<Span> {
    match reported {
        Some((secs, subsec_nanos)) => Some(Span { secs, subsec_nanos }),
        None => None,
    }
}

/// What decoding makes of a payload, given what the two decoders say: the
/// base64 engine of the text, the WAV decoder of the bytes. The header is
/// checked before the WAV decoder is heard.
pub open spec fn assembled(
    unpacked: Option<Seq<u8>>,
    probed: Option<Option<(u64, u32)>>,
) -> Result<DecodedAudioView, AudioDecodeError> {
    match unpacked {
        None => Err(AudioDecodeError::Base64Error),
        Some(container) => if !linear16_header(container) {
            Err(AudioDecodeError::ContainerFormatError)
        } else {
            match probed {
                None => Err(AudioDecodeError::ContainerFormatError),
                Some(reported) => Ok(DecodedAudioView { container, duration: span_of(reported) }),
            }
        },
    }
}

/// What [`decode`] returns for a payload: a base64 failure comes before any
/// look at the container.
pub open spec fn decoding(payload: Seq<char>) -> Result<DecodedAudioView, AudioDecodeError> {
    match base64_standard_decoding(payload) {
        None => Err(AudioDecodeError::Base64Error),
        Some(container) => assembled(Some(container), wav_total_duration(container)),
    }
}

impl DecodedAudio {
    /// The container is 16-bit linear PCM and the duration, where there is
    /// none counted as zero, is the one that its header computes.
    pub open spec fn matches_header(&self) -> bool {
        layout(self.container@) matches Some(found) && found.computes(
            match self.duration {
                Some(span) => span.nanos(),
                None => 0,
            },
        )
    }

    /// The layout that the header of the container declares, if the
    /// container is 16-bit linear PCM.
    pub fn layout(&self) -> (found: Option<WavLayout>)
        ensures
            found == layout(self.container@),
    {
        scan(&self.container)
    }

    /// Puts together the audio from container bytes and the duration that
    /// the WAV decoder reported for them.
    pub fn assemble(container: Vec<u8>, reported: Option<(u64, u32)>) -> (audio: DecodedAudio)
        ensures
            audio@ == (DecodedAudioView { container: container@, duration: span_of(reported) }),
            audio.container == container,
    {
        let duration = match reported {
            Some((secs, subsec_nanos)) => Some(Span { secs, subsec_nanos }),
            None => None,
        };
        DecodedAudio { container, duration }
    }

    /// The post-roll wait for this audio, in nanoseconds.
    pub fn post_roll_wait(&self) -> (ns: u128)
        ensures
            ns == post_roll_nanos(self.duration),
    {
        post_roll_wait(self.duration)
    }
}

/// Decodes the `audioContent` payload: base64 text into bytes, bytes into a
/// linear-PCM container.
///
/// Fails with `Base64Error` exactly where the base64 engine rejects the text,
/// and with `ContainerFormatError` exactly where it accepts the text and
/// either the bytes are no 16-bit linear-PCM container, as
/// [`crate::container::layout`] says, or the WAV decoder refuses them. A
/// container without a derivable duration is no error.
///
/// The duration of decoded audio is the one that the header computes: the
/// whole frames of the data chunk over the sample rate, to within a
/// millisecond.
pub fn decode(audio_content_base64: &str) -> (r: Result<DecodedAudio, AudioDecodeError>)
    ensures
        match r {
            Ok(audio) => decoding(audio_content_base64@) == Ok::<
                DecodedAudioView,
                AudioDecodeError,
            >(audio@),
            Err(error) => decoding(audio_content_base64@) == Err::<
                DecodedAudioView,
                AudioDecodeError,
            >(error),
        },
        r matches Ok(audio) ==> audio.matches_header(),
{
    match base64_decode(audio_content_base64) {
        Err(_) => Err(AudioDecodeError::Base64Error),
        Ok(container) => {
            if scan(&container).is_none() {
                return Err(AudioDecodeError::ContainerFormatError);
            }
            match wav_probe(&container) {
                Err(_) => Err(AudioDecodeError::ContainerFormatError),
                Ok(reported) => Ok(DecodedAudio::assemble(container, reported)),
            }
        },
    }
}

} // verus!
