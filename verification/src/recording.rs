//! Recording-side helpers: the fixed recording format and the WAV header
//! scan used to report a recording's duration. Files are read outside
//! this crate; the scan works on the bytes.

use vstd::prelude::*;

verus! {

/// Sample rate recordings are written at, in Hz.
pub const SAMPLE_RATE: usize = 48000;

/// Channels recordings are written with (stereo).
pub const CHANNELS: usize = 2;

/// The two-byte little-endian number at `off` in `b`.
pub open spec fn le16(b: Seq<u8>, off: int) -> int {
    b[off] + 0x100 * b[off + 1]
}

/// The four-byte little-endian number at `off` in `b`.
pub open spec fn le32(b: Seq<u8>, off: int) -> int {
    b[off] + 0x100 * b[off + 1] + 0x10000 * b[off + 2] + 0x1000000 * b[off + 3]
}

/// What the format ("fmt ") and sound-data ("data") chunks of a WAV file
/// carry, as scanned from its header.
#[derive(Debug, Clone, Copy, PartialEq, Eq, Structural)]
pub struct WavInfo {
    /// Sample rate in Hz.
    pub sample_rate: u32,
    /// Number of interleaved channels.
    pub channels: u16,
    /// Bits per sample of one channel.
    pub bits_per_sample: u16,
    /// Size of the sound data in bytes.
    pub data_size: u32,
}

/// The twelve-byte RIFF preamble: "RIFF", a file size, "WAVE".
pub open spec fn is_riff_wave(b: Seq<u8>) -> bool {
    &&& b[0] == 82u8
    &&& b[1] == 73u8
    &&& b[2] == 70u8
    &&& b[3] == 70u8
    &&& b[8] == 87u8
    &&& b[9] == 65u8
    &&& b[10] == 86u8
    &&& b[11] == 69u8
}

/// The chunk at `off` is the format chunk, "fmt ".
pub open spec fn is_fmt_tag(b: Seq<u8>, off: int) -> bool {
    &&& b[off] == 102u8
    &&& b[off + 1] == 109u8
    &&& b[off + 2] == 116u8
    &&& b[off + 3] == 32u8
}

/// The chunk at `off` is the sound-data chunk, "data".
pub open spec fn is_data_tag(b: Seq<u8>, off: int) -> bool {
    &&& b[off] == 100u8
    &&& b[off + 1] == 97u8
    &&& b[off + 2] == 116u8
    &&& b[off + 3] == 97u8
}

/// Bytes left in `b` from `off` on.
pub open spec fn bytes_left(b: Seq<u8>, off: int) -> int {
    if off <= b.len() {
        b.len() - off
    } else {
        0
    }
}

/// Walk the chunks of `b` from `off` with the format fields latched so
/// far. A format chunk of at least sixteen bytes latches new fields; a
/// truncated format chunk fails the scan; the first sound-data chunk
/// ends it with that chunk's size; running out of bytes ends it with no
/// sound data; any other chunk is skipped, even past the end.
pub open spec fn scan_chunks(b: Seq<u8>, off: int, ch: u16, sr: u32, bits: u16) -> Option<WavInfo>
    decreases bytes_left(b, off),
{
    if off + 8 > b.len() {
        Some(WavInfo { sample_rate: sr, channels: ch, bits_per_sample: bits, data_size: 0 })
    } else {
        let size = le32(b, off + 4);
        if is_fmt_tag(b, off) {
            if off + 8 + size > b.len() {
                None
            } else if size >= 16 {
                scan_chunks(
                    b,
                    off + 8 + size,
                    le16(b, off + 10) as u16,
                    le32(b, off + 12) as u32,
                    le16(b, off + 22) as u16,
                )
            } else {
                scan_chunks(b, off + 8 + size, ch, sr, bits)
            }
        } else if is_data_tag(b, off) {
            Some(WavInfo { sample_rate: sr, channels: ch, bits_per_sample: bits, data_size: size as u32 })
        } else {
            scan_chunks(b, off + 8 + size, ch, sr, bits)
        }
    }
}

/// What scanning a whole WAV file yields: nothing unless the RIFF/WAVE
/// preamble is present, the chunk walk succeeds, and every scanned field
/// came out non-zero.
pub open spec fn spec_parse_wav(b: Seq<u8>) -> Option<WavInfo> {
    if b.len() < 12 {
        None
    } else if !is_riff_wave(b) {
        None
    } else {
        match scan_chunks(b, 12, 0u16, 0u32, 0u16) {
            Option::None => None,
            Option::Some(info) => {
                if info.sample_rate == 0 || info.bits_per_sample == 0 || info.channels == 0
                    || info.data_size == 0 {
                    None
                } else {
                    Some(info)
                }
            },
        }
    }
}

/// The two-byte little-endian number at `off`.
fn read_le_u16(bytes: &[u8], off: usize) -> (v: u16)
    requires
        off + 2 <= bytes@.len(),
    ensures
        v as int == le16(bytes@, off as int),
{
    let b0 = bytes[off];
    let b1 = bytes[off + 1];
    (b0 as u16) + 256 * (b1 as u16)
}

/// The four-byte little-endian number at `off`.
fn read_le_u32(bytes: &[u8], off: usize) -> (v: u32)
    requires
        off + 4 <= bytes@.len(),
    ensures
        v as int == le32(bytes@, off as int),
{
    let b0 = bytes[off];
    let b1 = bytes[off + 1];
    let b2 = bytes[off + 2];
    let b3 = bytes[off + 3];
    (b0 as u32) + 256 * (b1 as u32) + 65536 * (b2 as u32) + 16777216 * (b3 as u32)
}

/// Scan a WAV file's header for its format and sound-data size, exactly
/// as [`spec_parse_wav`] describes: `None` for anything that is not a
/// WAV file with a complete format chunk and a sound-data chunk.
pub fn parse_wav_info(bytes: &[u8]) -> (info: Option<WavInfo>)
    ensures
        info == spec_parse_wav(bytes@),
{
    if bytes.len() < 12 {
        return None;
    }
    let preamble_ok = bytes[0] == 82 && bytes[1] == 73 && bytes[2] == 70 && bytes[3] == 70
        && bytes[8] == 87 && bytes[9] == 65 && bytes[10] == 86 && bytes[11] == 69;
    if !preamble_ok {
        return None;
    }

    let mut off: usize = 12;
    let mut channels: u16 = 0;
    let mut sample_rate: u32 = 0;
    let mut bits: u16 = 0;
    let mut data_size: u32 = 0;

    loop
        invariant_except_break
            bytes@.len() >= 12,
            is_riff_wave(bytes@),
            12 <= off <= bytes@.len(),
            scan_chunks(bytes@, off as int, channels, sample_rate, bits)
                == scan_chunks(bytes@, 12, 0u16, 0u32, 0u16),
        ensures
            scan_chunks(bytes@, 12, 0u16, 0u32, 0u16) == Some(WavInfo {
                sample_rate,
                channels,
                bits_per_sample: bits,
                data_size,
            }),
        decreases bytes@.len() - off,
    {
        if bytes.len() - off < 8 {
            data_size = 0;
            break;
        }
        let size = read_le_u32(bytes, off + 4);
        let fmt_tag = bytes[off] == 102 && bytes[off + 1] == 109 && bytes[off + 2] == 116
            && bytes[off + 3] == 32;
        let data_tag = bytes[off] == 100 && bytes[off + 1] == 97 && bytes[off + 2] == 116
            && bytes[off + 3] == 97;
        if fmt_tag {
            if size as usize > bytes.len() - off - 8 {
                return None;
            }
            if size >= 16 {
                channels = read_le_u16(bytes, off + 10);
                sample_rate = read_le_u32(bytes, off + 12);
                bits = read_le_u16(bytes, off + 22);
            }
            off = off + 8 + size as usize;
        } else if data_tag {
            data_size = size;
            break;
        } else {
            if size as usize > bytes.len() - off - 8 {
                proof {
                    assert(scan_chunks(
                        bytes@,
                        off as int + 8 + size as int,
                        channels,
                        sample_rate,
                        bits,
                    ) == Some(WavInfo {
                        sample_rate,
                        channels,
                        bits_per_sample: bits,
                        data_size: 0u32,
                    }));
                }
                data_size = 0;
                break;
            }
            off = off + 8 + size as usize;
        }
    }

    if sample_rate == 0 || bits == 0 || channels == 0 || data_size == 0 {
        return None;
    }
    Some(WavInfo { sample_rate, channels, bits_per_sample: bits, data_size })
}

impl WavInfo {
    /// Bytes one frame (one sample of every channel) occupies, with the
    /// sample size rounded down to whole bytes.
    pub open spec fn bytes_per_frame(self) -> int {
        (self.bits_per_sample as int / 8) * self.channels as int
    }

    /// Frames in the sound data. Undefined (`None`) when a frame spans
    /// no whole byte — samples narrower than eight bits or no channels.
    pub fn frame_count(&self) -> (n: Option<u32>)
        ensures
            self.bytes_per_frame() == 0 ==> n is None,
            self.bytes_per_frame() > 0 ==> n == Some(
                (self.data_size as int / self.bytes_per_frame()) as u32,
            ),
    {
        let bytes_per_sample = (self.bits_per_sample / 8) as u32;
        let channels = self.channels as u32;
        proof {
            assert(bytes_per_sample as int * channels as int == self.bytes_per_frame()
                && bytes_per_sample as int * channels as int <= 8191 * 65535)
                by (nonlinear_arith)
                requires
                    bytes_per_sample as int == self.bits_per_sample as int / 8,
                    channels as int == self.channels as int,
                    0 <= bytes_per_sample as int <= 8191,
                    0 <= channels as int <= 65535,
            ;
        }
        let per_frame = bytes_per_sample * channels;
        if per_frame == 0 {
            None
        } else {
            Some(self.data_size / per_frame)
        }
    }
}

} // verus!
