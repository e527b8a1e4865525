use crate::error::{
    outcome, AUDIO_STATUS_FAILED, CAPTURE_AUDIO_FAILED, DEVICE_TIME_FAILED, Error, MW_ENODATA,
    MW_SUCCEEDED, OPEN_FAILED, START_AUDIO_FAILED, STOP_AUDIO_FAILED, VIDEO_SIGNAL_FAILED,
    check_status,
};
use crate::frames::AudioCaptureFrame;
use crate::info::ChannelInfo;
use crate::notify::{NotifyEvents, NotifyHandle, NotifyRegistry, wakes, without_token};
use crate::signal::{AudioSignalStatus, VideoSignalStatus};
use crate::time::{duration_from_ticks, ticks_duration};
use std::time::Duration;
use vstd::prelude::*;

verus! {

/// The native resource of one open channel; never null.
#[derive(Debug, Clone, Copy, PartialEq, Eq, Structural)]
pub struct ChannelHandle {
    raw: u64,
}

impl ChannelHandle {
    #[verifier::type_invariant]
    spec fn non_null(&self) -> bool {
        self.raw != 0
    }

    pub closed spec fn raw_spec(&self) -> u64 {
        self.raw
    }

    /// Takes the handle that the native open call returned; a null one means that no
    /// channel could be opened, for instance when no hardware is present.
    pub fn from_raw(raw: u64) -> (r: Result<ChannelHandle, Error>)
        ensures
            raw == 0 ==> r == Err::<ChannelHandle, Error>(Error::spec_new(OPEN_FAILED)),
            raw != 0 ==> r is Ok && r->Ok_0.raw_spec() == raw,
    {
        if raw == 0 {
            Err(Error::new(OPEN_FAILED))
        } else {
            Ok(ChannelHandle { raw })
        }
    }

    pub fn raw(&self) -> (r: u64)
        ensures
            r == self.raw_spec(),
            r != 0,
    {
        proof {
            use_type_invariant(self);
        }
        self.raw
    }
}

/// What the two device families share: the channel's handle, its identity, its
/// completion source and the subscriptions of that source.
#[derive(Debug)]
pub struct ChannelBase {
    handle: ChannelHandle,
    info: ChannelInfo,
    event: u64,
    notify: NotifyRegistry,
}

/// What a capture-frame request reports, given the native result `code` and the frame's
/// fill marker `sync_code`.
pub open spec fn audio_frame_result(code: u32, sync_code: u32) -> Result<bool, Error> {
    if code == MW_SUCCEEDED {
        Ok(sync_code != 0)
    } else if code == MW_ENODATA {
        Ok(false)
    } else {
        Err(Error::spec_new(CAPTURE_AUDIO_FAILED))
    }
}

/// What a snapshot read reports, given the native result `code` and the value read.
pub open spec fn read_result<T>(code: u32, value: T, context: &'static str) -> Result<T, Error> {
    if code == MW_SUCCEEDED {
        Ok(value)
    } else {
        Err(Error::spec_new(context))
    }
}

impl ChannelBase {
    pub closed spec fn handle_spec(&self) -> ChannelHandle {
        self.handle
    }

    pub closed spec fn info_spec(&self) -> ChannelInfo {
        self.info
    }

    /// The completion source that hardware events signal.
    pub closed spec fn event_spec(&self) -> u64 {
        self.event
    }

    /// The live subscriptions of the completion source.
    pub closed spec fn subscriptions(&self) -> Seq<(u64, u32)> {
        self.notify@
    }

    /// A channel with no subscriptions yet.
    pub fn new(handle: ChannelHandle, info: ChannelInfo, event: u64) -> (r: ChannelBase)
        ensures
            r.handle_spec() == handle,
            r.info_spec() == info,
            r.event_spec() == event,
            r.subscriptions() == Seq::<(u64, u32)>::empty(),
    {
        ChannelBase { handle, info, event, notify: NotifyRegistry::new() }
    }

    pub fn handle(&self) -> (r: ChannelHandle)
        ensures
            r == self.handle_spec(),
    {
        self.handle
    }

    pub fn info(&self) -> (r: &ChannelInfo)
        ensures
            *r == self.info_spec(),
    {
        &self.info
    }

    pub fn event(&self) -> (r: u64)
        ensures
            r == self.event_spec(),
    {
        self.event
    }

    /// The audio signal snapshot that a native read returned with `code`.
    pub fn get_audio_signal_status(&self, code: u32, status: AudioSignalStatus) -> (r: Result<
        AudioSignalStatus,
        Error,
    >)
        ensures
            r == read_result(code, status, AUDIO_STATUS_FAILED),
    {
        match check_status(code, AUDIO_STATUS_FAILED) {
            Ok(()) => Ok(status),
            Err(e) => Err(e),
        }
    }

    /// The video signal snapshot that a native read returned with `code`.
    pub fn get_video_signal_status(&self, code: u32, status: VideoSignalStatus) -> (r: Result<
        VideoSignalStatus,
        Error,
    >)
        ensures
            r == read_result(code, status, VIDEO_SIGNAL_FAILED),
    {
        match check_status(code, VIDEO_SIGNAL_FAILED) {
            Ok(()) => Ok(status),
            Err(e) => Err(e),
        }
    }

    /// The device clock, from the 100 ns ticks that a native read returned with `code`.
    pub fn get_device_time(&self, code: u32, ticks: i64) -> (r: Result<Duration, Error>)
        ensures
            r == read_result(code, ticks_duration(ticks as u64), DEVICE_TIME_FAILED),
    {
        match check_status(code, DEVICE_TIME_FAILED) {
            Ok(()) => Ok(duration_from_ticks(ticks as u64)),
            Err(e) => Err(e),
        }
    }

    /// Records the subscription of the completion source to `events`, which the hardware
    /// accepted under `token` (zero when it refused).
    pub fn register_notify(&mut self, events: NotifyEvents, token: u64) -> (r: Result<
        NotifyHandle,
        Error,
    >)
        ensures
            token == 0 ==> r == Err::<NotifyHandle, Error>(Error::spec_new(
                crate::error::REGISTER_NOTIFY_FAILED,
            )) && final(self).subscriptions() == old(self).subscriptions(),
            token != 0 ==> r is Ok && r->Ok_0.token_spec() == token && final(self).subscriptions()
                == without_token(old(self).subscriptions(), token).push((token, events.mask())),
            final(self).handle_spec() == old(self).handle_spec(),
            final(self).info_spec() == old(self).info_spec(),
            final(self).event_spec() == old(self).event_spec(),
    {
        self.notify.register_notify(events, token)
    }

    /// Drops the subscription `handle` once the hardware reported `code` for its removal.
    pub fn unregister_notify(&mut self, handle: NotifyHandle, code: u32) -> (r: Result<
        (),
        Error,
    >)
        ensures
            code == MW_SUCCEEDED ==> r == Ok::<(), Error>(()) && final(self).subscriptions()
                == without_token(old(self).subscriptions(), handle.token_spec()),
            code != MW_SUCCEEDED ==> r == Err::<(), Error>(Error::spec_new(
                crate::error::UNREGISTER_NOTIFY_FAILED,
            )) && final(self).subscriptions() == old(self).subscriptions(),
            final(self).handle_spec() == old(self).handle_spec(),
            final(self).info_spec() == old(self).info_spec(),
            final(self).event_spec() == old(self).event_spec(),
    {
        self.notify.unregister_notify(handle, code)
    }

    /// Whether an event of one of the classes in `events` signals the completion source.
    pub fn wakes_on(&self, events: NotifyEvents) -> (r: bool)
        ensures
            r == wakes(self.subscriptions(), events.mask()),
    {
        self.notify.wakes_on(events)
    }

    /// The outcome of the native call that starts audio streaming.
    pub fn start_audio_capture(&mut self, code: u32) -> (r: Result<(), Error>)
        ensures
            r == outcome(code == MW_SUCCEEDED, START_AUDIO_FAILED),
            *final(self) == *old(self),
    {
        check_status(code, START_AUDIO_FAILED)
    }

    /// The outcome of the native call that stops audio streaming.
    pub fn stop_audio_capture(&mut self, code: u32) -> (r: Result<(), Error>)
        ensures
            r == outcome(code == MW_SUCCEEDED, STOP_AUDIO_FAILED),
            *final(self) == *old(self),
    {
        check_status(code, STOP_AUDIO_FAILED)
    }

    /// Whether `frame`, which the hardware was asked to fill with its marker cleared and
    /// answered with `code`, now holds samples. No queued audio is no failure: it gives
    /// `false`, and the caller waits and asks again.
    pub fn capture_audio_frame(&mut self, frame: &AudioCaptureFrame, code: u32) -> (r: Result<
        bool,
        Error,
    >)
        ensures
            r == audio_frame_result(code, frame.sync_code_spec()),
            *final(self) == *old(self),
    {
        if code == MW_SUCCEEDED {
            Ok(frame.sync_code() != 0)
        } else if code == MW_ENODATA {
            Ok(false)
        } else {
            Err(Error::new(CAPTURE_AUDIO_FAILED))
        }
    }
}

} // verus!
