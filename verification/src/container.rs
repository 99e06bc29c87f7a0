//! The layout of a linear-PCM (WAV) container.
//!
//! A container is a RIFF file of form `WAVE`: a list of chunks, each a
//! four-byte tag, a four-byte little-endian length and that many bytes, padded
//! to an even offset. This module finds the format chunk and the data chunk
//! and says whether the format is 16-bit linear PCM. It reads the header only;
//! turning samples into sound is the decoder's work.

use vstd::prelude::*;

verus! {

/// What the header of a container declares.
#[derive(Clone, Copy, Debug, PartialEq, Eq, Structural)]
pub struct WavLayout {
    /// Number of interleaved channels, at least one.
    pub channels: u16,
    /// Frames per second, above zero.
    pub sample_rate: u32,
    /// Offset of the first sample.
    pub data_start: usize,
    /// Length of the samples in bytes.
    pub data_len: u32,
}

impl WavLayout {
    /// Number of whole frames among the samples: two bytes per channel make
    /// one frame.
    pub open spec fn frames(self) -> nat {
        (self.data_len as nat) / (2 * (self.channels as nat))
    }

    /// A duration in nanoseconds is the duration that this header computes,
    /// frames over sample rate, to within one millisecond.
    pub open spec fn computes(self, nanos: nat) -> bool {
        let rate = self.sample_rate as int;
        let exact = self.frames() * 1_000_000_000;
        -1_000_000 * rate <= nanos * rate - exact <= 1_000_000 * rate
    }

    /// Number of whole frames among the samples.
    pub fn frame_count(self) -> (frames: u32)
        requires
            self.channels >= 1,
        ensures
            frames == self.frames(),
    {
        self.data_len / (2 * (self.channels as u32))
    }
}

/// The two bytes at `at` as a little-endian number.
pub open spec fn le16(bytes: Seq<u8>, at: int) -> int {
    bytes[at] as int + 256 * (bytes[at + 1] as int)
}

/// The four bytes at `at` as a little-endian number.
pub open spec fn le32(bytes: Seq<u8>, at: int) -> int {
    bytes[at] as int + 256 * (bytes[at + 1] as int) + 65536 * (bytes[at + 2] as int) + 16777216 * (
    bytes[at + 3] as int)
}

/// The four bytes at `at` are `a`, `b`, `c`, `d`.
pub open spec fn tagged(bytes: Seq<u8>, at: int, a: u8, b: u8, c: u8, d: u8) -> bool {
    bytes[at] == a && bytes[at + 1] == b && bytes[at + 2] == c && bytes[at + 3] == d
}

/// The format chunk whose `len` bytes begin at `at` declares 16-bit linear
/// PCM.
///
/// It is a chunk of 16, 18 or 40 bytes that declares format 1 (linear PCM),
/// at least one channel, a sample rate above zero, sixteen bits per sample
/// and a block of two bytes per channel. The average byte rate and whatever
/// follows the first sixteen bytes are not looked at. Every other format is
/// turned down, the extensible format `0xfffe` among them.
pub open spec fn pcm16_format(bytes: Seq<u8>, at: int, len: int) -> bool {
    &&& len == 16 || len == 18 || len == 40
    &&& le16(bytes, at) == 1
    &&& le16(bytes, at + 2) >= 1
    &&& le32(bytes, at + 4) >= 1
    &&& le16(bytes, at + 12) == 2 * le16(bytes, at + 2)
    &&& le16(bytes, at + 14) == 16
}

/// Where the chunk after one that ends at `end` begins: chunks start at even
/// offsets.
pub open spec fn aligned(end: int) -> int {
    end + end % 2
}

/// Walks the chunks from offset `at` to the data chunk. `format` holds the
/// channels and the sample rate of the format chunk passed so far.
///
/// Every chunk must lie within the bytes and within the length that the RIFF
/// preamble declares for the chunks, counted from behind the form `WAVE`. A
/// format chunk must declare 16-bit linear PCM and must be the only one; it
/// must come before the data chunk. A `LIST` chunk must hold its four-byte
/// form and be of even length. Chunks with any other tag are passed over,
/// and so is whatever follows the data chunk.
pub open spec fn walk(bytes: Seq<u8>, at: int, format: Option<(u16, u32)>) -> Option<WavLayout>
    decreases bytes.len() + 1 - at,
{
    if at < 12 || at + 8 > bytes.len() {
        None
    } else {
        let len = le32(bytes, at + 4);
        let end = at + 8 + len;
        if end > bytes.len() || end - 12 > le32(bytes, 4) {
            None
        } else if tagged(bytes, at, 0x64, 0x61, 0x74, 0x61) {
            match format {
                Some((channels, sample_rate)) => Some(
                    WavLayout {
                        channels,
                        sample_rate,
                        data_start: (at + 8) as usize,
                        data_len: len as u32,
                    },
                ),
                None => None,
            }
        } else if tagged(bytes, at, 0x66, 0x6d, 0x74, 0x20) {
            if format is None && pcm16_format(bytes, at + 8, len) {
                walk(
                    bytes,
                    aligned(end),
                    Some((le16(bytes, at + 10) as u16, le32(bytes, at + 12) as u32)),
                )
            } else {
                None
            }
        } else if tagged(bytes, at, 0x4c, 0x49, 0x53, 0x54) && (len < 4 || len % 2 == 1) {
            None
        } else {
            walk(bytes, aligned(end), format)
        }
    }
}

/// The layout of a 16-bit linear-PCM container, or `None` where the bytes
/// are no such container: they must begin with `RIFF`, a length and `WAVE`,
/// and the chunks that follow must lead to a data chunk as [`walk`] says.
pub open spec fn layout(bytes: Seq<u8>) -> Option<WavLayout> {
    if bytes.len() >= 12 && tagged(bytes, 0, 0x52, 0x49, 0x46, 0x46) && tagged(
        bytes,
        8,
        0x57,
        0x41,
        0x56,
        0x45,
    ) {
        walk(bytes, 12, None)
    } else {
        None
    }
}

/// The bytes are a 16-bit linear-PCM container whose samples are all there.
pub open spec fn linear16_header(bytes: Seq<u8>) -> bool {
    layout(bytes) is Some
}

/// A layout that [`walk`] finds lies within the bytes and declares at least
/// one channel and a sample rate above zero.
pub proof fn lemma_walk_is_sound(bytes: Seq<u8>, at: int, format: Option<(u16, u32)>)
    requires
        bytes.len() <= usize::MAX,
        format matches Some((channels, sample_rate)) ==> channels >= 1 && sample_rate >= 1,
    ensures
        walk(bytes, at, format) matches Some(found) ==> {
            &&& found.channels >= 1
            &&& found.sample_rate >= 1
            &&& 20 <= found.data_start
            &&& found.data_start + found.data_len <= bytes.len()
            &&& found.data_len == le32(bytes, found.data_start - 4)
            &&& tagged(bytes, found.data_start - 8, 0x64, 0x61, 0x74, 0x61)
        },
    decreases bytes.len() + 1 - at,
{
    if at >= 12 && at + 8 <= bytes.len() {
        let len = le32(bytes, at + 4);
        let end = at + 8 + len;
        if end <= bytes.len() && end - 12 <= le32(bytes, 4) {
            if tagged(bytes, at, 0x64, 0x61, 0x74, 0x61) {
            } else if tagged(bytes, at, 0x66, 0x6d, 0x74, 0x20) {
                if format is None && pcm16_format(bytes, at + 8, len) {
                    lemma_walk_is_sound(
                        bytes,
                        aligned(end),
                        Some((le16(bytes, at + 10) as u16, le32(bytes, at + 12) as u32)),
                    );
                }
            } else if tagged(bytes, at, 0x4c, 0x49, 0x53, 0x54) && (len < 4 || len % 2 == 1) {
            } else {
                lemma_walk_is_sound(bytes, aligned(end), format);
            }
        }
    }
}

/// The plain container is accepted: a format chunk of 16, 18 or 40 bytes that
/// declares 16-bit linear PCM, and the data chunk right behind it, with all
/// its samples there and within the RIFF length. Its layout is what the two
/// chunks declare.
pub proof fn lemma_format_then_data(bytes: Seq<u8>)
    requires
        12 <= bytes.len() <= usize::MAX,
        tagged(bytes, 0, 0x52, 0x49, 0x46, 0x46),
        tagged(bytes, 8, 0x57, 0x41, 0x56, 0x45),
        tagged(bytes, 12, 0x66, 0x6d, 0x74, 0x20),
        pcm16_format(bytes, 20, le32(bytes, 16)),
        20 + le32(bytes, 16) + 8 <= bytes.len(),
        tagged(bytes, 20 + le32(bytes, 16), 0x64, 0x61, 0x74, 0x61),
        28 + le32(bytes, 16) + le32(bytes, 24 + le32(bytes, 16)) <= bytes.len(),
        16 + le32(bytes, 16) + le32(bytes, 24 + le32(bytes, 16)) <= le32(bytes, 4),
    ensures
        layout(bytes) == Some(
            WavLayout {
                channels: le16(bytes, 22) as u16,
                sample_rate: le32(bytes, 24) as u32,
                data_start: (28 + le32(bytes, 16)) as usize,
                data_len: le32(bytes, 24 + le32(bytes, 16)) as u32,
            },
        ),
{
    reveal_with_fuel(walk, 3);
}

/// Reads the two bytes at `at` as a little-endian number.
fn read_le16(bytes: &Vec<u8>, at: usize) -> (value: u16)
    requires
        at + 2 <= bytes.len(),
    ensures
        value == le16(bytes@, at as int),
{
    (bytes[at] as u16) + 256 * (bytes[at + 1] as u16)
}

/// Reads the four bytes at `at` as a little-endian number.
fn read_le32(bytes: &Vec<u8>, at: usize) -> (value: u32)
    requires
        at + 4 <= bytes.len(),
    ensures
        value == le32(bytes@, at as int),
{
    (bytes[at] as u32) + 256 * (bytes[at + 1] as u32) + 65536 * (bytes[at + 2] as u32) + 16777216
        * (bytes[at + 3] as u32)
}

/// Whether the four bytes at `at` are `a`, `b`, `c`, `d`.
fn has_tag(bytes: &Vec<u8>, at: usize, a: u8, b: u8, c: u8, d: u8) -> (found: bool)
    requires
        at + 4 <= bytes.len(),
    ensures
        found == tagged(bytes@, at as int, a, b, c, d),
{
    bytes[at] == a && bytes[at + 1] == b && bytes[at + 2] == c && bytes[at + 3] == d
}

/// Whether the format chunk whose `len` bytes begin at `at` declares 16-bit
/// linear PCM.
fn is_pcm16_format(bytes: &Vec<u8>, at: usize, len: u32) -> (ok: bool)
    requires
        at + len <= bytes.len(),
    ensures
        ok == pcm16_format(bytes@, at as int, len as int),
{
    if !(len == 16 || len == 18 || len == 40) {
        return false;
    }
    let format: u16 = read_le16(bytes, at);
    let channels: u16 = read_le16(bytes, at + 2);
    let sample_rate: u32 = read_le32(bytes, at + 4);
    let block: u16 = read_le16(bytes, at + 12);
    let bits: u16 = read_le16(bytes, at + 14);
    format == 1 && channels >= 1 && sample_rate >= 1 && (block as u32) == 2 * (channels as u32)
        && bits == 16
}

/// Finds the layout of a 16-bit linear-PCM container: walks the chunks up to
/// the data chunk and checks the format chunk on the way. `None` where the
/// header is invalid, where the encoding is not 16-bit linear PCM, and where
/// the samples that the header declares are not all there.
pub fn scan(bytes: &Vec<u8>) -> (found: Option<WavLayout>)
    ensures
        found == layout(bytes@),
        found matches Some(l) ==> l.channels >= 1 && l.sample_rate >= 1 && l.data_start + l.data_len
            <= bytes.len(),
{
    if bytes.len() < 12 {
        return None;
    }
    if !has_tag(bytes, 0, 0x52, 0x49, 0x46, 0x46) || !has_tag(bytes, 8, 0x57, 0x41, 0x56, 0x45) {
        return None;
    }
    let riff_len: u32 = read_le32(bytes, 4);
    let mut at: usize = 12;
    let mut format: Option<(u16, u32)> = None;
    proof {
        lemma_walk_is_sound(bytes@, 12, None);
    }
    loop
        invariant
            12 <= at <= bytes.len() + 1,
            bytes.len() >= 12,
            riff_len == le32(bytes@, 4),
            layout(bytes@) == walk(bytes@, at as int, format),
            format matches Some((channels, sample_rate)) ==> channels >= 1 && sample_rate >= 1,
        decreases bytes.len() + 1 - at,
    {
        proof {
            lemma_walk_is_sound(bytes@, at as int, format);
        }
        if at > bytes.len() || bytes.len() - at < 8 {
            return None;
        }
        let len: u32 = read_le32(bytes, at + 4);
        let room: usize = bytes.len() - at - 8;
        if (len as u64) > (room as u64) || (at as u64) + (len as u64) > (riff_len as u64) + 4 {
            return None;
        }
        let end: usize = at + 8 + (len as usize);
        if has_tag(bytes, at, 0x64, 0x61, 0x74, 0x61) {
            return match format {
                Some((channels, sample_rate)) => Some(
                    WavLayout { channels, sample_rate, data_start: at + 8, data_len: len },
                ),
                None => None,
            };
        }
        if has_tag(bytes, at, 0x66, 0x6d, 0x74, 0x20) {
            if format.is_some() || !is_pcm16_format(bytes, at + 8, len) {
                return None;
            }
            format = Some((read_le16(bytes, at + 10), read_le32(bytes, at + 12)));
        } else if has_tag(bytes, at, 0x4c, 0x49, 0x53, 0x54) && (len < 4 || len % 2 == 1) {
            return None;
        }
        if end % 2 == 1 {
            if end == bytes.len() {
                assert(walk(bytes@, end + 1, format) is None);
                return None;
            }
            at = end + 1;
        } else {
            at = end;
        }
    }
}

/// Whether the bytes are a 16-bit linear-PCM container whose samples are all
/// there.
pub fn has_linear16_header(bytes: &Vec<u8>) -> (ok: bool)
    ensures
        ok == linear16_header(bytes@),
{
    scan(bytes).is_some()
}

} // verus!
