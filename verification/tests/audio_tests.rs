use base64::Engine;
use tts_overlay::audio::{decode, post_roll_wait, DecodedAudio, Span};
use tts_overlay::container::{has_linear16_header, scan, WavLayout};
use tts_overlay::outcome::{AudioDecodeError, Cause, Stage};

fn wav(sample_rate: u32, channels: u16, pcm: &[u8]) -> Vec<u8> {
    let block_align: u16 = channels * 2;
    let byte_rate: u32 = sample_rate * block_align as u32;
    let mut out = Vec::new();
    out.extend_from_slice(b"RIFF");
    out.extend_from_slice(&(36 + pcm.len() as u32).to_le_bytes());
    out.extend_from_slice(b"WAVE");
    out.extend_from_slice(b"fmt ");
    out.extend_from_slice(&16u32.to_le_bytes());
    out.extend_from_slice(&1u16.to_le_bytes());
    out.extend_from_slice(&channels.to_le_bytes());
    out.extend_from_slice(&sample_rate.to_le_bytes());
    out.extend_from_slice(&byte_rate.to_le_bytes());
    out.extend_from_slice(&block_align.to_le_bytes());
    out.extend_from_slice(&16u16.to_le_bytes());
    out.extend_from_slice(b"data");
    out.extend_from_slice(&(pcm.len() as u32).to_le_bytes());
    out.extend_from_slice(pcm);
    out
}

fn pcm(frames: usize, channels: usize) -> Vec<u8> {
    let mut out = Vec::with_capacity(frames * channels * 2);
    for i in 0..frames * channels {
        let sample = ((i % 200) as i16 - 100) * 50;
        out.extend_from_slice(&sample.to_le_bytes());
    }
    out
}

fn encode(bytes: &[u8]) -> String {
    base64::engine::general_purpose::STANDARD.encode(bytes)
}

#[test]
fn two_second_wav_reports_two_seconds() {
    let container = wav(24_000, 1, &pcm(48_000, 1));
    let audio = decode(&encode(&container)).unwrap();
    assert_eq!(audio.duration, Some(Span { secs: 2, subsec_nanos: 0 }));
    assert_eq!(audio.container, container);
    assert_eq!(audio.post_roll_wait(), 2_500_000_000);
}

#[test]
fn decoded_container_is_the_decoded_bytes_not_the_text() {
    let container = wav(8_000, 1, &pcm(8_000, 1));
    let text = encode(&container);
    let audio = decode(&text).unwrap();
    assert_ne!(audio.container, text.as_bytes().to_vec());
    assert_eq!(audio.container, container);
}

#[test]
fn round_trip_duration_matches_header() {
    let cases: [(u32, u16, usize); 5] =
        [(8_000, 1, 4_000), (16_000, 1, 1_600), (24_000, 1, 36_000), (44_100, 2, 44_100), (48_000, 2, 12_000)];
    for (rate, channels, frames) in cases {
        let container = wav(rate, channels, &pcm(frames, channels as usize));
        let audio = decode(&encode(&container)).unwrap();
        let span = audio.duration.expect("a duration is derivable from the header");
        let expected_ns = frames as u128 * 1_000_000_000 / rate as u128;
        let got = span.as_nanos();
        let gap = if got > expected_ns { got - expected_ns } else { expected_ns - got };
        assert!(gap <= 1_000, "rate {rate}, frames {frames}: {got} against {expected_ns}");
    }
}

#[test]
fn half_second_wav_has_subsecond_duration() {
    let container = wav(8_000, 1, &pcm(4_000, 1));
    let audio = decode(&encode(&container)).unwrap();
    assert_eq!(audio.duration, Some(Span { secs: 0, subsec_nanos: 500_000_000 }));
    assert_eq!(audio.post_roll_wait(), 1_000_000_000);
}

#[test]
fn malformed_base64_is_a_base64_error() {
    assert_eq!(decode("this is not base64!"), Err(AudioDecodeError::Base64Error));
    assert_eq!(decode("QUJD="), Err(AudioDecodeError::Base64Error));
    assert_eq!(decode("QUJ"), Err(AudioDecodeError::Base64Error));
}

#[test]
fn bytes_that_are_no_container_are_a_format_error() {
    assert_eq!(decode(&encode(b"just some text, no audio")), Err(AudioDecodeError::ContainerFormatError));
}

#[test]
fn empty_payload_is_a_format_error() {
    assert_eq!(decode(""), Err(AudioDecodeError::ContainerFormatError));
}

#[test]
fn truncated_header_is_a_format_error() {
    let container = wav(24_000, 1, &pcm(100, 1));
    assert_eq!(decode(&encode(&container[..20])), Err(AudioDecodeError::ContainerFormatError));
}

#[test]
fn non_pcm_encoding_is_a_format_error() {
    let mut container = wav(24_000, 1, &pcm(2_400, 1));
    // Format tag 0x0055 is MPEG layer 3, not linear PCM.
    container[20] = 0x55;
    container[21] = 0x00;
    assert_eq!(decode(&encode(&container)), Err(AudioDecodeError::ContainerFormatError));
}

#[test]
fn post_roll_adds_half_a_second() {
    assert_eq!(post_roll_wait(Some(Span { secs: 2, subsec_nanos: 0 })), 2_500_000_000);
    assert_eq!(post_roll_wait(Some(Span { secs: 0, subsec_nanos: 0 })), 500_000_000);
    assert_eq!(post_roll_wait(Some(Span { secs: 1, subsec_nanos: 750_000_000 })), 2_250_000_000);
}

#[test]
fn post_roll_falls_back_to_twenty_five_seconds() {
    assert_eq!(post_roll_wait(None), 25_500_000_000);
}

#[test]
fn post_roll_of_the_longest_span_does_not_overflow() {
    let longest = Span { secs: u64::MAX, subsec_nanos: u32::MAX };
    let expected = u64::MAX as u128 * 1_000_000_000 + u32::MAX as u128 + 500_000_000;
    assert_eq!(post_roll_wait(Some(longest)), expected);
}

#[test]
fn span_combines_seconds_and_nanoseconds() {
    assert_eq!(Span { secs: 0, subsec_nanos: 0 }.as_nanos(), 0);
    assert_eq!(Span { secs: 3, subsec_nanos: 250 }.as_nanos(), 3_000_000_250);
    assert_eq!(Span { secs: 1, subsec_nanos: 2_000_000_000 }.as_nanos(), 3_000_000_000);
}

#[test]
fn assemble_keeps_bytes_and_duration() {
    let audio = DecodedAudio::assemble(vec![1, 2, 3], Some((4, 5)));
    assert_eq!(audio.container, vec![1, 2, 3]);
    assert_eq!(audio.duration, Some(Span { secs: 4, subsec_nanos: 5 }));
    let silent = DecodedAudio::assemble(vec![9], None);
    assert_eq!(silent.duration, None);
    assert_eq!(silent.post_roll_wait(), 25_500_000_000);
}

#[test]
fn decode_errors_belong_to_the_decode_stage() {
    assert_eq!(AudioDecodeError::Base64Error.cause(), Cause::Base64Error);
    assert_eq!(AudioDecodeError::ContainerFormatError.cause(), Cause::ContainerFormatError);
    assert_eq!(Cause::Base64Error.stage(), Stage::Decode);
    assert_eq!(Cause::ContainerFormatError.stage(), Stage::Decode);
}

fn patched(at: usize, bytes: &[u8]) -> Vec<u8> {
    let mut container = wav(24_000, 1, &pcm(2_400, 1));
    container[at..at + bytes.len()].copy_from_slice(bytes);
    container
}

fn refused(container: &[u8]) {
    assert!(!has_linear16_header(&container.to_vec()));
    assert_eq!(decode(&encode(container)), Err(AudioDecodeError::ContainerFormatError));
}

#[test]
fn well_formed_header_is_accepted() {
    assert!(has_linear16_header(&wav(24_000, 1, &pcm(2_400, 1))));
    assert!(has_linear16_header(&wav(44_100, 2, &pcm(10, 2))));
    assert!(has_linear16_header(&wav(1, 1, &[])));
}

#[test]
fn zero_sample_rate_is_a_format_error() {
    refused(&patched(24, &0u32.to_le_bytes()));
}

#[test]
fn zero_channels_is_a_format_error() {
    refused(&patched(22, &0u16.to_le_bytes()));
}

#[test]
fn block_size_must_be_two_bytes_per_channel() {
    refused(&patched(32, &4u16.to_le_bytes()));
    refused(&patched(32, &0u16.to_le_bytes()));
    refused(&patched(22, &2u16.to_le_bytes()));
}

#[test]
fn other_sample_widths_are_a_format_error() {
    refused(&patched(34, &8u16.to_le_bytes()));
    refused(&patched(34, &24u16.to_le_bytes()));
    refused(&patched(34, &32u16.to_le_bytes()));
    refused(&patched(34, &0u16.to_le_bytes()));
}

#[test]
fn float_samples_are_a_format_error() {
    refused(&patched(20, &3u16.to_le_bytes()));
}

#[test]
fn wrong_tags_are_a_format_error() {
    refused(&patched(0, b"RIFX"));
    refused(&patched(8, b"AIFF"));
    refused(&patched(12, b"fmt\0"));
    refused(&patched(36, b"LIST"));
}

fn format_chunk(tag: u16, channels: u16, rate: u32, bits: u16, extra: &[u8]) -> Vec<u8> {
    let block: u16 = channels * 2;
    let mut out = Vec::new();
    out.extend_from_slice(&tag.to_le_bytes());
    out.extend_from_slice(&channels.to_le_bytes());
    out.extend_from_slice(&rate.to_le_bytes());
    out.extend_from_slice(&(rate * block as u32).to_le_bytes());
    out.extend_from_slice(&block.to_le_bytes());
    out.extend_from_slice(&bits.to_le_bytes());
    out.extend_from_slice(extra);
    out
}

fn riff(chunks: &[(&[u8; 4], Vec<u8>)]) -> Vec<u8> {
    let mut body = Vec::new();
    body.extend_from_slice(b"WAVE");
    for (tag, bytes) in chunks {
        body.extend_from_slice(&tag[..]);
        body.extend_from_slice(&(bytes.len() as u32).to_le_bytes());
        body.extend_from_slice(bytes);
        if bytes.len() % 2 == 1 {
            body.push(0);
        }
    }
    let mut out = Vec::new();
    out.extend_from_slice(b"RIFF");
    out.extend_from_slice(&(body.len() as u32).to_le_bytes());
    out.extend_from_slice(&body);
    out
}

fn plays_for(container: &[u8], secs: u64, subsec_nanos: u32) {
    assert!(has_linear16_header(&container.to_vec()));
    let audio = decode(&encode(container)).unwrap();
    assert_eq!(audio.duration, Some(Span { secs, subsec_nanos }));
}

#[test]
fn format_chunk_of_eighteen_bytes_is_accepted() {
    let container =
        riff(&[(b"fmt ", format_chunk(1, 1, 8_000, 16, &[0, 0])), (b"data", pcm(4_000, 1))]);
    plays_for(&container, 0, 500_000_000);
}

#[test]
fn stereo_format_chunk_of_eighteen_bytes_is_accepted() {
    let container =
        riff(&[(b"fmt ", format_chunk(1, 2, 16_000, 16, &[0, 0])), (b"data", pcm(16_000, 2))]);
    plays_for(&container, 1, 0);
}

#[test]
fn format_chunk_of_forty_bytes_is_accepted() {
    let container =
        riff(&[(b"fmt ", format_chunk(1, 1, 8_000, 16, &[0u8; 24])), (b"data", pcm(8_000, 1))]);
    plays_for(&container, 1, 0);
}

#[test]
fn format_chunk_of_another_length_is_a_format_error() {
    refused(&riff(&[(b"fmt ", format_chunk(1, 1, 8_000, 16, &[0u8; 4])), (b"data", pcm(80, 1))]));
    refused(&riff(&[(b"fmt ", format_chunk(1, 1, 8_000, 16, &[])[..14].to_vec()), (b"data", pcm(80, 1))]));
    refused(&patched(16, &18u32.to_le_bytes()));
}

#[test]
fn list_chunk_before_the_samples_is_passed_over() {
    let mut info = b"INFO".to_vec();
    info.extend_from_slice(b"ISFT");
    info.extend_from_slice(&6u32.to_le_bytes());
    info.extend_from_slice(b"voice\0");
    let container = riff(&[
        (b"fmt ", format_chunk(1, 1, 24_000, 16, &[])),
        (b"LIST", info),
        (b"data", pcm(24_000, 1)),
    ]);
    plays_for(&container, 1, 0);
}

#[test]
fn list_chunk_before_the_format_is_passed_over() {
    let container = riff(&[
        (b"LIST", b"adtl".to_vec()),
        (b"fmt ", format_chunk(1, 1, 24_000, 16, &[])),
        (b"data", pcm(12_000, 1)),
    ]);
    plays_for(&container, 0, 500_000_000);
}

#[test]
fn list_chunk_of_odd_or_short_length_is_a_format_error() {
    refused(&riff(&[
        (b"fmt ", format_chunk(1, 1, 24_000, 16, &[])),
        (b"LIST", b"INFO\0".to_vec()),
        (b"data", pcm(240, 1)),
    ]));
    refused(&riff(&[
        (b"fmt ", format_chunk(1, 1, 24_000, 16, &[])),
        (b"LIST", b"IN".to_vec()),
        (b"data", pcm(240, 1)),
    ]));
}

#[test]
fn unknown_chunks_are_passed_over_with_their_padding() {
    let container = riff(&[
        (b"junk", vec![1, 2, 3]),
        (b"fmt ", format_chunk(1, 1, 24_000, 16, &[])),
        (b"cue ", vec![0u8; 5]),
        (b"fact", 6_000u32.to_le_bytes().to_vec()),
        (b"data", pcm(6_000, 1)),
    ]);
    plays_for(&container, 0, 250_000_000);
    assert_eq!(
        scan(&container),
        Some(WavLayout { channels: 1, sample_rate: 24_000, data_start: 82, data_len: 12_000 })
    );
}

#[test]
fn chunks_after_the_samples_are_not_looked_at() {
    let mut container = wav(24_000, 1, &pcm(2_400, 1));
    container.extend_from_slice(b"LIST\x03\0\0\0abc\0fmt ");
    let riff_len = (container.len() - 8) as u32;
    container[4..8].copy_from_slice(&riff_len.to_le_bytes());
    plays_for(&container, 0, 100_000_000);
}

#[test]
fn second_format_chunk_is_a_format_error() {
    refused(&riff(&[
        (b"fmt ", format_chunk(1, 1, 24_000, 16, &[])),
        (b"fmt ", format_chunk(1, 1, 24_000, 16, &[])),
        (b"data", pcm(240, 1)),
    ]));
}

#[test]
fn zero_sample_rate_in_a_later_format_chunk_is_a_format_error() {
    refused(&riff(&[
        (b"LIST", b"INFO".to_vec()),
        (b"fmt ", format_chunk(1, 1, 0, 16, &[0, 0])),
        (b"data", pcm(240, 1)),
    ]));
}

#[test]
fn samples_before_the_format_are_a_format_error() {
    refused(&riff(&[(b"data", pcm(240, 1)), (b"fmt ", format_chunk(1, 1, 24_000, 16, &[]))]));
    refused(&riff(&[(b"data", pcm(240, 1))]));
    refused(&riff(&[(b"fmt ", format_chunk(1, 1, 24_000, 16, &[]))]));
    refused(&riff(&[]));
}

#[test]
fn extensible_format_is_a_format_error() {
    let mut extra = vec![22u8, 0, 16, 0, 1, 0, 0, 0];
    extra.extend_from_slice(&[1, 0, 0, 0, 0, 0, 0x10, 0, 0x80, 0, 0, 0xaa, 0, 0x38, 0x9b, 0x71]);
    refused(&riff(&[(b"fmt ", format_chunk(0xfffe, 1, 24_000, 16, &extra)), (b"data", pcm(240, 1))]));
}

#[test]
fn layout_of_the_plain_container() {
    let container = wav(44_100, 2, &pcm(441, 2));
    let layout = WavLayout { channels: 2, sample_rate: 44_100, data_start: 44, data_len: 1_764 };
    assert_eq!(scan(&container), Some(layout));
    assert_eq!(layout.frame_count(), 441);
    let audio = decode(&encode(&container)).unwrap();
    assert_eq!(audio.layout(), Some(layout));
    assert_eq!(audio.duration, Some(Span { secs: 0, subsec_nanos: 10_000_000 }));
}

#[test]
fn frames_are_whole_frames() {
    let layout = WavLayout { channels: 2, sample_rate: 8_000, data_start: 44, data_len: 7 };
    assert_eq!(layout.frame_count(), 1);
    let empty = WavLayout { channels: 1, sample_rate: 8_000, data_start: 44, data_len: 1 };
    assert_eq!(empty.frame_count(), 0);
}

#[test]
fn decoded_duration_is_within_a_millisecond_of_the_header() {
    let cases: [(u32, u16, usize); 6] = [
        (1, 1, 3),
        (7, 1, 100),
        (8_000, 1, 1),
        (22_050, 2, 12_345),
        (48_000, 1, 47_999),
        (192_000, 2, 100_001),
    ];
    for (rate, channels, frames) in cases {
        let container = wav(rate, channels, &pcm(frames, channels as usize));
        let audio = decode(&encode(&container)).unwrap();
        let layout = audio.layout().unwrap();
        assert_eq!(layout.frame_count() as usize, frames);
        let got = audio.duration.map(|span| span.as_nanos()).unwrap_or(0);
        let exact = frames as u128 * 1_000_000_000 / rate as u128;
        let gap = if got > exact { got - exact } else { exact - got };
        assert!(gap <= 1_000_000, "rate {rate}, frames {frames}: {got} against {exact}");
    }
}

#[test]
fn samples_must_all_be_there() {
    let container = wav(24_000, 1, &pcm(2_400, 1));
    refused(&container[..container.len() - 1]);
    refused(&patched(40, &4_801u32.to_le_bytes()));
    refused(&patched(40, &u32::MAX.to_le_bytes()));
}

#[test]
fn riff_length_must_cover_the_samples() {
    refused(&patched(4, &0u32.to_le_bytes()));
    refused(&patched(4, &(32u32 + 4_799).to_le_bytes()));
    // The length counts from behind the form, as the decoder counts it.
    let container = patched(4, &(32u32 + 4_800).to_le_bytes());
    assert!(has_linear16_header(&container));
    assert!(decode(&encode(&container)).is_ok());
}

#[test]
fn bytes_before_the_header_are_a_format_error() {
    let mut container = vec![0u8, 0u8];
    container.extend_from_slice(&wav(24_000, 1, &pcm(2_400, 1)));
    refused(&container);
}

#[test]
fn header_alone_is_too_short_by_one() {
    let container = wav(24_000, 1, &[]);
    assert_eq!(container.len(), 44);
    assert!(has_linear16_header(&container));
    refused(&container[..43]);
}

#[test]
fn container_without_samples_has_no_duration() {
    let audio = decode(&encode(&wav(24_000, 1, &[]))).unwrap();
    assert_eq!(audio.duration, None);
    assert_eq!(audio.post_roll_wait(), 25_500_000_000);
}

#[test]
fn declared_length_decides_the_duration() {
    // 4800 bytes follow, 2400 are declared: 1200 frames at 24 kHz.
    let audio = decode(&encode(&patched(40, &2_400u32.to_le_bytes()))).unwrap();
    assert_eq!(audio.duration, Some(Span { secs: 0, subsec_nanos: 50_000_000 }));
}

#[test]
fn byte_rate_is_not_looked_at() {
    let container = patched(28, &7u32.to_le_bytes());
    assert!(has_linear16_header(&container));
    let audio = decode(&encode(&container)).unwrap();
    assert_eq!(audio.duration, Some(Span { secs: 0, subsec_nanos: 100_000_000 }));
}

#[test]
fn many_channels_pass_the_header_and_are_left_to_the_decoder() {
    let container = wav(24_000, 40, &pcm(10, 40));
    assert!(has_linear16_header(&container));
    assert_eq!(decode(&encode(&container)), Err(AudioDecodeError::ContainerFormatError));
}
