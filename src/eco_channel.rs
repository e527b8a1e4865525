use crate::capture::{ChannelBase, ChannelHandle};
use crate::error::{
    outcome, check_status, Error, ERROR_EVENT, EVENTFD_FAILED, EVENTFD_READ_FAILED,
    FRAME_ALREADY_SET, MW_SUCCEEDED, NO_FRAME_SET, SET_FRAME_FAILED, START_VIDEO_FAILED,
    STOP_VIDEO_FAILED, VIDEO_STATUS_FAILED,
};
use crate::fourcc::FourCC;
use crate::frames::{EcoVideoCaptureFrame, EcoVideoCaptureStatus};
use crate::info::ChannelInfo;
use vstd::prelude::*;

verus! {

/// Frame duration that asks for continuous capture with no fixed frame rate.
pub const INDEFINITE_FRAME_DURATION: i64 = -1;

/// The parameters of the native call that starts video capture.
#[derive(Debug)]
pub struct VideoCaptureParams {
    pub width: i32,
    pub height: i32,
    pub fourcc: u32,
    pub frame_duration: i64,
    pub event: u64,
}

/// A channel of the Eco family, whose completion source is a readable descriptor and
/// which can capture video into one caller buffer at a time.
#[derive(Debug)]
pub struct EcoChannel {
    base: ChannelBase,
    video_capture_frame: Option<EcoVideoCaptureFrame>,
}

/// What a submission reports when the channel's frame slot holds `slot`.
pub open spec fn submission_result(slot: Option<EcoVideoCaptureFrame>) -> Result<(), Error> {
    if slot is Some {
        Err(Error::spec_new(FRAME_ALREADY_SET))
    } else {
        Ok(())
    }
}

/// The slot after `frame` is offered to a slot holding `slot`: a buffer already
/// submitted stays, and `frame` is dropped.
pub open spec fn slot_after_submission(
    slot: Option<EcoVideoCaptureFrame>,
    frame: EcoVideoCaptureFrame,
) -> Option<EcoVideoCaptureFrame> {
    if slot is Some {
        slot
    } else {
        Some(frame)
    }
}

/// The slot after the hardware answered `code` to a submission: a refused buffer is
/// released.
pub open spec fn slot_after_completion(slot: Option<EcoVideoCaptureFrame>, code: u32) -> Option<
    EcoVideoCaptureFrame,
> {
    if code == MW_SUCCEEDED {
        slot
    } else {
        None
    }
}

/// The failure, if any, of a status poll that the hardware answered with `code` and the
/// frame pointer `frame_pointer`, when the slot holds `slot`.
pub open spec fn poll_error(slot: Option<EcoVideoCaptureFrame>, code: u32, frame_pointer: u64) -> Option<
    Error,
> {
    if code != MW_SUCCEEDED {
        Some(Error::spec_new(VIDEO_STATUS_FAILED))
    } else if slot is None {
        Some(Error::spec_new(NO_FRAME_SET))
    } else {
        None
    }
}

/// Whether a poll answered with `code` and `frame_pointer`, while the slot holds `slot`,
/// finds that the submitted frame is not ready yet.
pub open spec fn poll_not_ready(slot: Option<EcoVideoCaptureFrame>, code: u32, frame_pointer: u64) -> bool {
    code == MW_SUCCEEDED && slot is Some && frame_pointer == 0
}

/// The slot after a poll: a completed frame leaves it.
pub open spec fn slot_after_poll(slot: Option<EcoVideoCaptureFrame>, code: u32, frame_pointer: u64) -> Option<
    EcoVideoCaptureFrame,
> {
    if code == MW_SUCCEEDED && frame_pointer != 0 {
        None
    } else {
        slot
    }
}

/// What a wait reports, given what was read from the completion descriptor (`None` when
/// the read failed).
pub open spec fn wait_result(read: Option<u64>) -> Result<(), Error> {
    match read {
        None => Err(Error::spec_new(EVENTFD_READ_FAILED)),
        Some(value) => outcome(value != 0, ERROR_EVENT),
    }
}

/// Once a buffer has been submitted and the hardware accepted it, every further
/// submission before the buffer is reclaimed fails with "video frame already set" and
/// leaves the submitted buffer in place.
pub proof fn lemma_resubmission_refused(
    first: EcoVideoCaptureFrame,
    second: EcoVideoCaptureFrame,
    third: EcoVideoCaptureFrame,
)
    ensures
        ({
            let held = slot_after_completion(slot_after_submission(None, first), MW_SUCCEEDED);
            let after_second = slot_after_submission(held, second);
            &&& submission_result(None) == Ok::<(), Error>(())
            &&& submission_result(held) == Err::<(), Error>(Error::spec_new(FRAME_ALREADY_SET))
            &&& after_second == Some(first)
            &&& submission_result(after_second) == Err::<(), Error>(
                Error::spec_new(FRAME_ALREADY_SET),
            )
            &&& slot_after_submission(after_second, third) == Some(first)
        }),
{
}

/// A poll while no buffer was submitted fails with "no video frame set", whatever frame
/// pointer the hardware reports, once the status read itself succeeded.
pub proof fn lemma_poll_without_submission(code: u32, frame_pointer: u64)
    requires
        code == MW_SUCCEEDED,
    ensures
        poll_error(None, code, frame_pointer) == Some(Error::spec_new(NO_FRAME_SET)),
        !poll_not_ready(None, code, frame_pointer),
        slot_after_poll(None, code, frame_pointer) is None,
{
}

/// After one accepted submission, polls report no frame and keep the buffer until the
/// hardware reports a completed frame; that poll hands back the submitted buffer itself,
/// of the same length and stride, and empties the slot.
pub proof fn lemma_poll_reclaims_submission(frame: EcoVideoCaptureFrame, frame_pointer: u64)
    requires
        frame_pointer != 0,
    ensures
        ({
            let held = slot_after_completion(slot_after_submission(None, frame), MW_SUCCEEDED);
            &&& poll_error(held, MW_SUCCEEDED, 0) is None
            &&& poll_not_ready(held, MW_SUCCEEDED, 0)
            &&& slot_after_poll(held, MW_SUCCEEDED, 0) == held
            &&& poll_error(held, MW_SUCCEEDED, frame_pointer) is None
            &&& !poll_not_ready(held, MW_SUCCEEDED, frame_pointer)
            &&& held == Some(frame)
            &&& held->0@.data.len() == frame@.data.len()
            &&& held->0@.stride == frame@.stride
            &&& slot_after_poll(held, MW_SUCCEEDED, frame_pointer) is None
        }),
{
}

impl EcoChannel {
    pub closed spec fn base_spec(&self) -> ChannelBase {
        self.base
    }

    /// The buffer that the hardware holds, if any.
    pub closed spec fn video_frame(&self) -> Option<EcoVideoCaptureFrame> {
        self.video_capture_frame
    }

    /// An Eco channel over `handle`, whose completion descriptor is `event` (`None` when
    /// creating it failed).
    pub fn new(handle: ChannelHandle, info: ChannelInfo, event: Option<u64>) -> (r: Result<
        EcoChannel,
        Error,
    >)
        ensures
            event is None ==> r == Err::<EcoChannel, Error>(Error::spec_new(EVENTFD_FAILED)),
            event is Some ==> r is Ok && r->Ok_0.video_frame() is None
                && r->Ok_0.base_spec().handle_spec() == handle
                && r->Ok_0.base_spec().info_spec() == info
                && r->Ok_0.base_spec().event_spec() == event->0
                && r->Ok_0.base_spec().subscriptions() == Seq::<(u64, u32)>::empty(),
    {
        match event {
            None => Err(Error::new(EVENTFD_FAILED)),
            Some(fd) => Ok(
                EcoChannel { base: ChannelBase::new(handle, info, fd), video_capture_frame: None },
            ),
        }
    }

    pub fn base(&self) -> (r: &ChannelBase)
        ensures
            *r == self.base_spec(),
    {
        &self.base
    }

    pub fn base_mut(&mut self) -> (r: &mut ChannelBase)
        ensures
            *r == old(self).base_spec(),
            final(self).base_spec() == *final(r),
            final(self).video_frame() == old(self).video_frame(),
    {
        &mut self.base
    }

    /// The parameters with which to start continuous capture of `width` by `height`
    /// images in `format`, signalling this channel's completion descriptor.
    pub fn video_capture_params(&self, width: u16, height: u16, format: &FourCC) -> (r:
        VideoCaptureParams)
        ensures
            r.width == width,
            r.height == height,
            r.fourcc == format.code(),
            r.frame_duration == INDEFINITE_FRAME_DURATION,
            r.event == self.base_spec().event_spec(),
    {
        VideoCaptureParams {
            width: width as i32,
            height: height as i32,
            fourcc: format.as_u32(),
            frame_duration: INDEFINITE_FRAME_DURATION,
            event: self.base.event(),
        }
    }

    /// The outcome of the native call that starts video capture.
    pub fn start_video_capture(&mut self, code: u32) -> (r: Result<(), Error>)
        ensures
            r == outcome(code == MW_SUCCEEDED, START_VIDEO_FAILED),
            *final(self) == *old(self),
    {
        check_status(code, START_VIDEO_FAILED)
    }

    /// The outcome of the native call that stops video capture. A submitted buffer stays
    /// with the hardware.
    pub fn stop_video_capture(&mut self, code: u32) -> (r: Result<(), Error>)
        ensures
            r == outcome(code == MW_SUCCEEDED, STOP_VIDEO_FAILED),
            *final(self) == *old(self),
    {
        check_status(code, STOP_VIDEO_FAILED)
    }

    /// Takes `frame` into the channel's slot, from where its bytes go to the hardware.
    /// Only one buffer may be with the hardware at a time: while one is, this fails and
    /// `frame` is dropped.
    pub fn set_video_capture_frame(&mut self, frame: EcoVideoCaptureFrame) -> (r: Result<
        (),
        Error,
    >)
        ensures
            r == submission_result(old(self).video_frame()),
            final(self).video_frame() == slot_after_submission(old(self).video_frame(), frame),
            final(self).base_spec() == old(self).base_spec(),
    {
        if self.video_capture_frame.is_some() {
            return Err(Error::new(FRAME_ALREADY_SET));
        }
        self.video_capture_frame = Some(frame);
        Ok(())
    }

    /// The hardware's answer `code` to the submission of the buffer in the slot; a
    /// refused buffer is released.
    pub fn complete_video_capture_frame(&mut self, code: u32) -> (r: Result<(), Error>)
        ensures
            r == outcome(code == MW_SUCCEEDED, SET_FRAME_FAILED),
            final(self).video_frame() == slot_after_completion(old(self).video_frame(), code),
            final(self).base_spec() == old(self).base_spec(),
    {
        if code != MW_SUCCEEDED {
            self.video_capture_frame = None;
            return Err(Error::new(SET_FRAME_FAILED));
        }
        Ok(())
    }

    /// Polls for the submitted buffer, given the hardware's capture status: its result
    /// `code`, the pointer of the frame it completed (null when none is ready yet) and
    /// the capture time in ticks. A completed frame is handed back with its timestamp. A
    /// poll with no buffer submitted is a misuse and fails, whatever the hardware reports.
    pub fn get_video_capture_status(&mut self, code: u32, frame_pointer: u64, timestamp: i64) -> (r:
        Result<Option<EcoVideoCaptureStatus>, Error>)
        ensures
            r is Err <==> poll_error(old(self).video_frame(), code, frame_pointer) is Some,
            r is Err ==> r->Err_0 == poll_error(old(self).video_frame(), code, frame_pointer)->0,
            r == Ok::<Option<EcoVideoCaptureStatus>, Error>(None) <==> poll_not_ready(
                old(self).video_frame(),
                code,
                frame_pointer,
            ),
            r matches Ok(Some(status)) ==> status.frame_spec() == old(self).video_frame()->0
                && status.timestamp_ticks() == timestamp,
            final(self).video_frame() == slot_after_poll(
                old(self).video_frame(),
                code,
                frame_pointer,
            ),
            final(self).base_spec() == old(self).base_spec(),
    {
        if code != MW_SUCCEEDED {
            return Err(Error::new(VIDEO_STATUS_FAILED));
        }
        if self.video_capture_frame.is_none() {
            return Err(Error::new(NO_FRAME_SET));
        }
        if frame_pointer == 0 {
            return Ok(None);
        }
        match self.video_capture_frame.take() {
            None => Err(Error::new(NO_FRAME_SET)),
            Some(frame) => Ok(Some(EcoVideoCaptureStatus::new(frame, timestamp))),
        }
    }

    /// What a blocking read of the completion descriptor returned (`None` when the read
    /// failed): a nonzero count is a wake-up, zero an error signalled on purpose.
    pub fn wait(&self, read: Option<u64>) -> (r: Result<(), Error>)
        ensures
            r == wait_result(read),
    {
        match read {
            None => Err(Error::new(EVENTFD_READ_FAILED)),
            Some(value) => {
                if value == 0 {
                    Err(Error::new(ERROR_EVENT))
                } else {
                    Ok(())
                }
            },
        }
    }
}

} // verus!
