use crate::capture::{ChannelBase, ChannelHandle};
use crate::error::{Error, EVENT_FAILED};
use crate::info::ChannelInfo;
use vstd::prelude::*;

verus! {

/// A channel of the Pro family, whose completion source is a native event object. It
/// offers no video frame capture.
#[derive(Debug)]
pub struct ProChannel {
    base: ChannelBase,
}

impl ProChannel {
    pub closed spec fn base_spec(&self) -> ChannelBase {
        self.base
    }

    /// A Pro channel over `handle`, whose event object is `event`; a null event means
    /// that creating it failed.
    pub fn new(handle: ChannelHandle, info: ChannelInfo, event: u64) -> (r: Result<
        ProChannel,
        Error,
    >)
        ensures
            event == 0 ==> r == Err::<ProChannel, Error>(Error::spec_new(EVENT_FAILED)),
            event != 0 ==> r is Ok && r->Ok_0.base_spec().handle_spec() == handle
                && r->Ok_0.base_spec().info_spec() == info
                && r->Ok_0.base_spec().event_spec() == event
                && r->Ok_0.base_spec().subscriptions() == Seq::<(u64, u32)>::empty(),
    {
        if event == 0 {
            return Err(Error::new(EVENT_FAILED));
        }
        Ok(ProChannel { base: ChannelBase::new(handle, info, event) })
    }

    pub fn base(&self) -> (r: &ChannelBase)
        ensures
            *r == self.base_spec(),
    {
        &self.base
    }

    pub fn base_mut(&mut self) -> (r: &mut ChannelBase)
        ensures
            *r == old(self).base_spec(),
            final(self).base_spec() == *final(r),
    {
        &mut self.base
    }
}

} // verus!
