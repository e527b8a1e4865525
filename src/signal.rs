use crate::time::{duration_from_ticks, ticks_duration};
use std::time::Duration;
use vstd::prelude::*;

verus! {

/// Native code of the video signal state "no signal".
pub const VIDEO_SIGNAL_NONE: u32 = 0;

/// Native code of the video signal state "unsupported signal".
pub const VIDEO_SIGNAL_UNSUPPORTED: u32 = 1;

/// Native code of the video signal state "locking".
pub const VIDEO_SIGNAL_LOCKING: u32 = 2;

/// Native code of the video signal state "locked".
pub const VIDEO_SIGNAL_LOCKED: u32 = 3;

#[derive(Debug, Clone, Copy, PartialEq, Eq, Structural)]
pub enum VideoSignalState {
    NoSignal,
    Locked,
    Locking,
    Unsupported,
    Other,
}

/// The state that a native state code stands for.
pub open spec fn video_state_of(code: u32) -> VideoSignalState {
    if code == VIDEO_SIGNAL_NONE {
        VideoSignalState::NoSignal
    } else if code == VIDEO_SIGNAL_LOCKED {
        VideoSignalState::Locked
    } else if code == VIDEO_SIGNAL_LOCKING {
        VideoSignalState::Locking
    } else if code == VIDEO_SIGNAL_UNSUPPORTED {
        VideoSignalState::Unsupported
    } else {
        VideoSignalState::Other
    }
}

impl From<u32> for VideoSignalState {
    fn from(code: u32) -> (r: VideoSignalState) {
        if code == VIDEO_SIGNAL_NONE {
            VideoSignalState::NoSignal
        } else if code == VIDEO_SIGNAL_LOCKED {
            VideoSignalState::Locked
        } else if code == VIDEO_SIGNAL_LOCKING {
            VideoSignalState::Locking
        } else if code == VIDEO_SIGNAL_UNSUPPORTED {
            VideoSignalState::Unsupported
        } else {
            VideoSignalState::Other
        }
    }
}

impl vstd::std_specs::convert::FromSpecImpl<u32> for VideoSignalState {
    open spec fn obeys_from_spec() -> bool {
        true
    }

    open spec fn from_spec(code: u32) -> VideoSignalState {
        video_state_of(code)
    }
}

/// Number of set bits of `x`.
pub open spec fn ones(x: nat) -> nat
    decreases x,
{
    if x == 0 {
        0
    } else {
        (x % 2) + ones(x / 2)
    }
}

proof fn lemma_ones_le(x: nat)
    ensures
        ones(x) <= x,
    decreases x,
{
    if x != 0 {
        lemma_ones_le(x / 2);
    }
}

/// Snapshot of the audio signal detected on a channel.
#[derive(Debug)]
pub struct AudioSignalStatus {
    channel_valid: u16,
    lpcm: u8,
    bits_per_sample: u8,
    sample_rate: u32,
}

impl AudioSignalStatus {
    /// A snapshot from the native record's fields: the mask of valid stereo channel
    /// pairs, the LPCM flag, the sample depth and the sample rate.
    pub fn new(channel_valid: u16, lpcm: u8, bits_per_sample: u8, sample_rate: u32) -> (r: Self)
        ensures
            r.channel_valid_spec() == channel_valid,
            r.lpcm_spec() == lpcm,
            r.bits_per_sample_spec() == bits_per_sample,
            r.sample_rate_spec() == sample_rate,
    {
        AudioSignalStatus { channel_valid, lpcm, bits_per_sample, sample_rate }
    }

    pub closed spec fn channel_valid_spec(&self) -> u16 {
        self.channel_valid
    }

    pub closed spec fn lpcm_spec(&self) -> u8 {
        self.lpcm
    }

    pub closed spec fn bits_per_sample_spec(&self) -> u8 {
        self.bits_per_sample
    }

    pub closed spec fn sample_rate_spec(&self) -> u32 {
        self.sample_rate
    }

    pub fn is_lpcm(&self) -> (r: bool)
        ensures
            r == (self.lpcm_spec() != 0),
    {
        self.lpcm != 0
    }

    /// Two channels for each valid stereo pair.
    pub fn channel_count(&self) -> (r: u32)
        ensures
            r == 2 * ones(self.channel_valid_spec() as nat),
    {
        let mut x: u16 = self.channel_valid;
        let mut n: u32 = 0;
        proof {
            lemma_ones_le(x as nat);
        }
        while x != 0
            invariant
                n + ones(x as nat) == ones(self.channel_valid as nat),
                ones(self.channel_valid as nat) <= u16::MAX,
            decreases x,
        {
            n = n + (x % 2) as u32;
            x = x / 2;
        }
        2 * n
    }

    pub fn bits_per_sample(&self) -> (r: u8)
        ensures
            r == self.bits_per_sample_spec(),
    {
        self.bits_per_sample
    }

    pub fn sample_rate(&self) -> (r: u32)
        ensures
            r == self.sample_rate_spec(),
    {
        self.sample_rate
    }
}

/// Snapshot of the video signal detected on a channel.
#[derive(Debug)]
pub struct VideoSignalStatus {
    state: u32,
    width: i32,
    height: i32,
    frame_duration: u32,
}

impl VideoSignalStatus {
    /// A snapshot from the native record's fields: the state code, the image size and the
    /// frame duration in 100 ns ticks.
    pub fn new(state: u32, width: i32, height: i32, frame_duration: u32) -> (r: Self)
        ensures
            r.state_code() == state,
            r.width_spec() == width,
            r.height_spec() == height,
            r.frame_duration_ticks() == frame_duration,
    {
        VideoSignalStatus { state, width, height, frame_duration }
    }

    pub closed spec fn state_code(&self) -> u32 {
        self.state
    }

    pub closed spec fn width_spec(&self) -> i32 {
        self.width
    }

    pub closed spec fn height_spec(&self) -> i32 {
        self.height
    }

    pub closed spec fn frame_duration_ticks(&self) -> u32 {
        self.frame_duration
    }

    pub fn state(&self) -> (r: VideoSignalState)
        ensures
            r == video_state_of(self.state_code()),
    {
        VideoSignalState::from(self.state)
    }

    pub fn image_width(&self) -> (r: u16)
        ensures
            r == self.width_spec() as u16,
    {
        self.width as u16
    }

    pub fn image_height(&self) -> (r: u16)
        ensures
            r == self.height_spec() as u16,
    {
        self.height as u16
    }

    pub fn frame_duration(&self) -> (r: Duration)
        ensures
            r == ticks_duration(self.frame_duration_ticks() as u64),
    {
        duration_from_ticks(self.frame_duration as u64)
    }
}

} // verus!
