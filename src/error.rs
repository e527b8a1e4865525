use vstd::prelude::*;

verus! {

/// Result code with which a native SDK call reports success.
pub const MW_SUCCEEDED: u32 = 0;

/// Result code with which a native SDK call reports that no data is queued yet.
pub const MW_ENODATA: u32 = 2;

pub const INIT_FAILED: &'static str = "unable to initialize magewell api";
pub const LOCK_FAILED: &'static str = "unable to lock device list";
pub const REFRESH_FAILED: &'static str = "unable to refresh device list";
pub const OPEN_FAILED: &'static str = "unable to open channel";
pub const CHANNEL_INFO_FAILED: &'static str = "unable to get channel info";
pub const EVENTFD_FAILED: &'static str = "unable to create eventfd";
pub const EVENT_FAILED: &'static str = "unable to create event";
pub const EVENTFD_READ_FAILED: &'static str = "unable to read eventfd";
pub const ERROR_EVENT: &'static str = "error event received";
pub const START_VIDEO_FAILED: &'static str = "unable to start video capture";
pub const STOP_VIDEO_FAILED: &'static str = "unable to stop video capture";
pub const FRAME_ALREADY_SET: &'static str = "video frame already set";
pub const SET_FRAME_FAILED: &'static str = "unable to set video frame";
pub const VIDEO_STATUS_FAILED: &'static str = "unable to get video capture status";
pub const NO_FRAME_SET: &'static str = "no video frame set";
pub const AUDIO_STATUS_FAILED: &'static str = "unable to get audio signal status";
pub const VIDEO_SIGNAL_FAILED: &'static str = "unable to get video signal status";
pub const DEVICE_TIME_FAILED: &'static str = "unable to get device time";
pub const REGISTER_NOTIFY_FAILED: &'static str = "unable to register notify";
pub const UNREGISTER_NOTIFY_FAILED: &'static str = "unable to unregister notify";
pub const START_AUDIO_FAILED: &'static str = "unable to start audio capture";
pub const STOP_AUDIO_FAILED: &'static str = "unable to stop audio capture";
pub const CAPTURE_AUDIO_FAILED: &'static str = "unable to capture audio frame";

/// The single failure kind of the library: an operation failed, and `context`
/// says which one.
#[derive(Debug)]
pub struct Error {
    pub context: &'static str,
}

impl Error {
    pub open spec fn spec_new(context: &'static str) -> Error {
        Error { context }
    }

    pub fn new(context: &'static str) -> (r: Error)
        ensures
            r == Error::spec_new(context),
    {
        Error { context }
    }

    /// What failed, in words.
    pub fn context(&self) -> (r: &'static str)
        ensures
            r == self.context,
    {
        self.context
    }
}

/// What an operation reports when `ok` says whether its native step succeeded.
pub open spec fn outcome(ok: bool, context: &'static str) -> Result<(), Error> {
    if ok {
        Ok(())
    } else {
        Err(Error::spec_new(context))
    }
}

/// Fails with `context` unless `ok` holds.
pub fn require(ok: bool, context: &'static str) -> (r: Result<(), Error>)
    ensures
        r == outcome(ok, context),
{
    if ok {
        Ok(())
    } else {
        Err(Error::new(context))
    }
}

/// Turns the result code of a native SDK call into success, or a failure with `context`.
pub fn check_status(code: u32, context: &'static str) -> (r: Result<(), Error>)
    ensures
        r == outcome(code == MW_SUCCEEDED, context),
{
    require(code == MW_SUCCEEDED, context)
}

} // verus!
