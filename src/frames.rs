use crate::time::{duration_from_ticks, ticks_duration};
use std::time::Duration;
use vstd::prelude::*;

verus! {

/// Samples per channel in one audio frame.
pub const AUDIO_SAMPLES_PER_FRAME: usize = 192;

/// Channels that one audio frame has room for.
pub const AUDIO_MAX_NUM_CHANNELS: usize = 8;

/// What an `EcoVideoCaptureFrame` holds: its bytes and its row stride.
pub struct FrameView {
    pub data: Seq<u8>,
    pub stride: usize,
}

/// A caller-owned buffer that receives one captured video frame.
#[derive(Debug)]
pub struct EcoVideoCaptureFrame {
    buf: Vec<u8>,
    stride: usize,
}

impl View for EcoVideoCaptureFrame {
    type V = FrameView;

    closed spec fn view(&self) -> FrameView {
        FrameView { data: self.buf@, stride: self.stride }
    }
}

impl EcoVideoCaptureFrame {
    /// A zeroed buffer of `size` bytes with rows `stride` bytes apart.
    pub fn new(size: usize, stride: usize) -> (r: Self)
        ensures
            r@.data == Seq::new(size as nat, |i: int| 0u8),
            r@.stride == stride,
    {
        let buf: Vec<u8> = vec![0u8; size];
        assert(buf@ =~= Seq::new(size as nat, |i: int| 0u8));
        EcoVideoCaptureFrame { buf, stride }
    }

    pub fn as_slice(&self) -> (r: &[u8])
        ensures
            r@ == self@.data,
    {
        self.buf.as_slice()
    }

    /// The bytes that the hardware writes into, for handing their address to it.
    pub fn as_mut_slice(&mut self) -> (r: &mut [u8])
        ensures
            r@ == old(self)@.data,
            final(self)@ == (FrameView { data: final(r)@, stride: old(self)@.stride }),
    {
        self.buf.as_mut_slice()
    }

    pub fn stride(&self) -> (r: usize)
        ensures
            r == self@.stride,
    {
        self.stride
    }
}

/// A reclaimed video frame, with the time at which it was captured.
#[derive(Debug)]
pub struct EcoVideoCaptureStatus {
    frame: EcoVideoCaptureFrame,
    timestamp: i64,
}

impl EcoVideoCaptureStatus {
    pub closed spec fn frame_spec(&self) -> EcoVideoCaptureFrame {
        self.frame
    }

    /// The capture time in 100 ns ticks of the device clock.
    pub closed spec fn timestamp_ticks(&self) -> i64 {
        self.timestamp
    }

    pub fn new(frame: EcoVideoCaptureFrame, timestamp: i64) -> (r: Self)
        ensures
            r.frame_spec() == frame,
            r.timestamp_ticks() == timestamp,
    {
        EcoVideoCaptureStatus { frame, timestamp }
    }

    pub fn frame(&self) -> (r: &EcoVideoCaptureFrame)
        ensures
            *r == self.frame_spec(),
    {
        &self.frame
    }

    pub fn into_frame(self) -> (r: EcoVideoCaptureFrame)
        ensures
            r == self.frame_spec(),
    {
        self.frame
    }

    pub fn timestamp(&self) -> (r: Duration)
        ensures
            r == ticks_duration(self.timestamp_ticks() as u64),
    {
        duration_from_ticks(self.timestamp as u64)
    }
}

/// A buffer that receives one frame of audio samples.
#[derive(Debug)]
pub struct AudioCaptureFrame {
    frame_index: i32,
    sync_code: u32,
    frame_count: u32,
    timestamp: i64,
    samples: Vec<u32>,
}

/// Number of samples that every audio frame holds.
pub const AUDIO_FRAME_SAMPLES: usize = AUDIO_SAMPLES_PER_FRAME * AUDIO_MAX_NUM_CHANNELS;

impl AudioCaptureFrame {
    /// A frame always has room for a full frame of samples.
    #[verifier::type_invariant]
    spec fn full_frame(&self) -> bool {
        self.samples@.len() == AUDIO_FRAME_SAMPLES
    }

    pub closed spec fn frame_index_spec(&self) -> i32 {
        self.frame_index
    }

    /// The marker that the hardware sets when it has filled the frame.
    pub closed spec fn sync_code_spec(&self) -> u32 {
        self.sync_code
    }

    pub closed spec fn frame_count_spec(&self) -> u32 {
        self.frame_count
    }

    /// The capture time in 100 ns ticks of the device clock.
    pub closed spec fn timestamp_ticks(&self) -> i64 {
        self.timestamp
    }

    pub closed spec fn samples_spec(&self) -> Seq<u32> {
        self.samples@
    }

    /// A frame with the fields of the native record that the hardware filled.
    pub fn from_parts(
        frame_index: i32,
        sync_code: u32,
        frame_count: u32,
        timestamp: i64,
        samples: Vec<u32>,
    ) -> (r: Self)
        requires
            samples@.len() == AUDIO_FRAME_SAMPLES,
        ensures
            r.frame_index_spec() == frame_index,
            r.sync_code_spec() == sync_code,
            r.frame_count_spec() == frame_count,
            r.timestamp_ticks() == timestamp,
            r.samples_spec() == samples@,
    {
        AudioCaptureFrame { frame_index, sync_code, frame_count, timestamp, samples }
    }

    pub fn frame_index(&self) -> (r: i32)
        ensures
            r == self.frame_index_spec(),
    {
        self.frame_index
    }

    pub fn sync_code(&self) -> (r: u32)
        ensures
            r == self.sync_code_spec(),
    {
        self.sync_code
    }

    pub fn frame_count(&self) -> (r: u32)
        ensures
            r == self.frame_count_spec(),
    {
        self.frame_count
    }

    /// Clears the fill marker, as is done before each request to the hardware.
    pub fn clear_sync_code(&mut self)
        ensures
            final(self).sync_code_spec() == 0,
            final(self).frame_index_spec() == old(self).frame_index_spec(),
            final(self).frame_count_spec() == old(self).frame_count_spec(),
            final(self).timestamp_ticks() == old(self).timestamp_ticks(),
            final(self).samples_spec() == old(self).samples_spec(),
    {
        proof {
            use_type_invariant(&*self);
        }
        self.sync_code = 0;
    }

    /// For LPCM, the channel order is 0L, 1L, 2L, 3L, 0R, 1R, 2R, 3R.
    pub fn samples(&self) -> (r: &[u32])
        ensures
            r@ == self.samples_spec(),
            r@.len() == AUDIO_FRAME_SAMPLES,
    {
        proof {
            use_type_invariant(self);
        }
        self.samples.as_slice()
    }

    pub fn timestamp(&self) -> (r: Duration)
        ensures
            r == ticks_duration(self.timestamp_ticks() as u64),
    {
        duration_from_ticks(self.timestamp as u64)
    }
}

impl Default for AudioCaptureFrame {
    /// An empty frame: every field zero, with room for a full frame of samples.
    fn default() -> (r: Self)
        ensures
            r.frame_index_spec() == 0,
            r.sync_code_spec() == 0,
            r.frame_count_spec() == 0,
            r.timestamp_ticks() == 0,
            r.samples_spec() == Seq::new(AUDIO_FRAME_SAMPLES as nat, |i: int| 0u32),
    {
        let samples: Vec<u32> = vec![0u32; AUDIO_FRAME_SAMPLES];
        assert(samples@ =~= Seq::new(AUDIO_FRAME_SAMPLES as nat, |i: int| 0u32));
        AudioCaptureFrame { frame_index: 0, sync_code: 0, frame_count: 0, timestamp: 0, samples }
    }
}

} // verus!
