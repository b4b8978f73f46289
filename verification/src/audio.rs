//! The fixed PCM format, the silent waveform played each cycle, the model of
//! a playback buffer header, and the classification of waveform-API result
//! codes.

use vstd::prelude::*;
use vstd::string::*;
use crate::util::{dec_seq, dec_u32};

verus! {

/// Samples per second of the fixed PCM format.
pub const SAMPLES_PER_SEC: u32 = 44100;

/// Interval between playback cycles, in milliseconds.
pub const TIMER_PERIOD_MS: u32 = 5000;

/// Format tag of uncompressed PCM audio.
pub const WAVE_FORMAT_PCM: u16 = 1;

/// Device identifier that asks for the default output device.
pub const WAVE_MAPPER: u32 = 0xFFFF_FFFF;

/// Bit the device sets in a header's flags once playback of it is done.
pub const WHDR_DONE: u32 = 1;

/// Result code that the waveform API returns on success.
pub const MMSYSERR_NOERROR: u32 = 0;

/// Result code the waveform API returns for an invalid parameter.
pub const MMSYSERR_INVALPARAM: u32 = 11;

/// Length in bytes of one cycle's buffer: 10 milliseconds of samples.
pub const WAVEFORM_LEN: usize = 441;

/// Generates 10 milliseconds of silence.
pub fn generate_waveform() -> (buffer: Vec<u8>)
    ensures
        buffer@.len() == WAVEFORM_LEN,
        forall|i: int| 0 <= i < buffer@.len() ==> buffer@[i] == 0,
{
    let mut buffer: Vec<u8> = Vec::new();
    let mut i: usize = 0;
    while i < WAVEFORM_LEN
        invariant
            i <= WAVEFORM_LEN,
            buffer@.len() == i,
            forall|j: int| 0 <= j < i ==> buffer@[j] == 0,
        decreases WAVEFORM_LEN - i,
    {
        buffer.push(0);
        i = i + 1;
    }
    buffer
}

/// The fields of the format an output device is opened with; the shells turn
/// it into the descriptor the platform call takes.
pub struct WaveFormat {
    pub format_tag: u16,
    pub channels: u16,
    pub samples_per_sec: u32,
    pub avg_bytes_per_sec: u32,
    pub block_align: u16,
    pub bits_per_sample: u16,
    pub extra_size: u16,
}

impl WaveFormat {
    /// A consistent single-channel PCM format: the block alignment covers one
    /// sample of every channel, and the byte rate follows from it.
    pub open spec fn wf(self) -> bool {
        &&& self.format_tag == WAVE_FORMAT_PCM
        &&& self.bits_per_sample % 8 == 0
        &&& self.block_align == self.channels * (self.bits_per_sample / 8)
        &&& self.avg_bytes_per_sec == self.samples_per_sec * self.block_align
        &&& self.extra_size == 0
    }
}

/// The format every session uses: 44.1 kHz, mono, 16-bit PCM.
pub fn audio_format() -> (f: WaveFormat)
    ensures
        f.wf(),
        f.channels == 1,
        f.samples_per_sec == SAMPLES_PER_SEC,
        f.bits_per_sample == 16,
        f.block_align == 2,
{
    WaveFormat {
        format_tag: WAVE_FORMAT_PCM,
        channels: 1,
        samples_per_sec: SAMPLES_PER_SEC,
        avg_bytes_per_sec: SAMPLES_PER_SEC * 2,
        block_align: 2,
        bits_per_sample: 16,
        extra_size: 0,
    }
}

/// What the logic reads of the descriptor that binds one playback buffer to
/// the device; the shells keep the buffer address beside it.
pub struct WaveHeader {
    pub buffer_length: u32,
    pub bytes_recorded: u32,
    pub flags: u32,
    pub loops: u32,
}

/// Whether a header's flags say the device is done playing it.
pub open spec fn spec_header_done(flags: u32) -> bool {
    flags & WHDR_DONE != 0
}

impl WaveHeader {
    /// Whether the device has finished playing this header's buffer.
    pub fn is_done(&self) -> (r: bool)
        ensures
            r == spec_header_done(self.flags),
    {
        self.flags & WHDR_DONE != 0
    }
}

/// Builds the header for one buffer: it records the buffer's length, and
/// every other field the logic reads starts cleared.
pub fn create_waveform(buffer: &Vec<u8>) -> (h: WaveHeader)
    requires
        buffer@.len() <= u32::MAX,
    ensures
        h.buffer_length == buffer@.len(),
        h.bytes_recorded == 0,
        h.flags == 0,
        h.loops == 0,
{
    WaveHeader { buffer_length: buffer.len() as u32, bytes_recorded: 0, flags: 0, loops: 0 }
}

/// Classifies a waveform-API result code: the zero code is success; any
/// other code yields the given message with the code appended.
pub fn check_result(result: u32, message: &str) -> (r: Result<(), String>)
    ensures
        r is Ok <==> result == MMSYSERR_NOERROR,
        r is Err ==> r->Err_0@ == message@ + " (code: "@ + dec_seq(result as nat) + ")"@,
{
    if result == MMSYSERR_NOERROR {
        Ok(())
    } else {
        let mut s = String::from_str(message);
        s.append(" (code: ");
        let digits = dec_u32(result);
        s.append(digits.as_str());
        s.append(")");
        proof {
            assert(s@ =~= message@ + " (code: "@ + dec_seq(result as nat) + ")"@);
        }
        Err(s)
    }
}

} // verus!
