use crate::capture::{ChannelBase, ChannelHandle};
use crate::eco_channel::EcoChannel;
use crate::error::{
    check_status, outcome, Error, INIT_FAILED, LOCK_FAILED, OPEN_FAILED, CHANNEL_INFO_FAILED, EVENTFD_FAILED, EVENT_FAILED, MW_SUCCEEDED,
    REFRESH_FAILED,
};
use crate::info::{normalized_info, ChannelInfo, ChannelInfoView, RawChannelInfo};
use crate::pro_channel::ProChannel;
use vstd::prelude::*;

verus! {

/// Name with which Eco family devices report their family, in ASCII.
pub open spec fn eco_family_name() -> Seq<u8> {
    seq![69u8, 99u8, 111u8, 32u8, 67u8, 97u8, 112u8, 116u8, 117u8, 114u8, 101u8]
}

/// Whether a channel with identity `info` belongs to the Eco family.
pub open spec fn is_eco(info: ChannelInfoView) -> bool {
    info.family_name == eco_family_name()
}

/// Whether `info` names the Eco family, whose channels `Channel::open` opens as
/// `EcoChannel`; every other family is opened as `ProChannel`.
pub fn is_eco_family(info: &ChannelInfo) -> (r: bool)
    ensures
        r == is_eco(info@),
{
    let name = info.family_name();
    let eco: [u8; 11] = [69u8, 99u8, 111u8, 32u8, 67u8, 97u8, 112u8, 116u8, 117u8, 114u8, 101u8];
    assert(eco@ =~= eco_family_name());
    assert(eco_family_name().len() == 11);
    if name.len() != 11 {
        assert(name@.len() != eco_family_name().len());
        assert(name@ != eco_family_name());
        return false;
    }
    let mut i: usize = 0;
    while i < 11
        invariant
            name@ == info@.family_name,
            name@.len() == 11,
            eco@ == eco_family_name(),
            i <= 11,
            forall|j: int| 0 <= j < i ==> name@[j] == eco@[j],
        decreases 11 - i,
    {
        if name[i] != eco[i] {
            assert(name@[i as int] != eco_family_name()[i as int]);
            return false;
        }
        i = i + 1;
    }
    assert(name@ =~= eco_family_name());
    true
}

/// The identity record that a native read returned with `code`.
pub fn read_channel_info(code: u32, raw: &RawChannelInfo) -> (r: Result<ChannelInfo, Error>)
    ensures
        code == MW_SUCCEEDED ==> r is Ok && r->Ok_0@ == normalized_info(*raw),
        code != MW_SUCCEEDED ==> r == Err::<ChannelInfo, Error>(Error::spec_new(CHANNEL_INFO_FAILED)),
{
    match check_status(code, CHANNEL_INFO_FAILED) {
        Ok(()) => Ok(ChannelInfo::from_raw(raw)),
        Err(e) => Err(e),
    }
}

/// Whether every per-index read of a listing succeeded.
pub open spec fn all_read(reads: Seq<Option<RawChannelInfo>>) -> bool {
    forall|i: int| 0 <= i < reads.len() ==> reads[i] is Some
}

/// The identities that a listing of successful reads describes, one per channel.
pub open spec fn listing(reads: Seq<Option<RawChannelInfo>>) -> Seq<ChannelInfoView> {
    reads.map_values(|read: Option<RawChannelInfo>| normalized_info(read->0))
}

/// What the steps before the per-index reads of a listing report: whether the SDK
/// initialised, whether the device list lock was taken, and the result code of the
/// rescan. The first step that fails decides the error.
pub open spec fn scan_result(initialized: bool, locked: bool, refresh: u32) -> Result<(), Error> {
    if !initialized {
        outcome(false, INIT_FAILED)
    } else if !locked {
        outcome(false, LOCK_FAILED)
    } else {
        outcome(refresh == MW_SUCCEEDED, REFRESH_FAILED)
    }
}

/// The identities of all present channels, given in turn whether the SDK initialised,
/// whether the device list lock was taken, the outcome `refresh` of the rescan of the
/// device list, and then, in index order, the outcome of reading each channel's record
/// (`None` when that read failed). The device list lock is held across the rescan and
/// the reads.
pub fn get_channel_info(
    initialized: bool,
    locked: bool,
    refresh: u32,
    reads: &Vec<Option<RawChannelInfo>>,
) -> (r: Result<Vec<ChannelInfo>, Error>)
    ensures
        scan_result(initialized, locked, refresh) matches Err(e) ==> r == Err::<
            Vec<ChannelInfo>,
            Error,
        >(e),
        scan_result(initialized, locked, refresh) is Ok && !all_read(reads@) ==> r == Err::<
            Vec<ChannelInfo>,
            Error,
        >(Error::spec_new(CHANNEL_INFO_FAILED)),
        scan_result(initialized, locked, refresh) is Ok && all_read(reads@) ==> r is Ok
            && r->Ok_0@.map_values(|info: ChannelInfo| info@) == listing(reads@),
{
    if !initialized {
        return Err(Error::new(INIT_FAILED));
    }
    if !locked {
        return Err(Error::new(LOCK_FAILED));
    }
    if let Err(e) = check_status(refresh, REFRESH_FAILED) {
        return Err(e);
    }
    let mut infos: Vec<ChannelInfo> = Vec::new();
    let mut i: usize = 0;
    while i < reads.len()
        invariant
            initialized,
            locked,
            refresh == MW_SUCCEEDED,
            i <= reads@.len(),
            infos@.len() == i,
            forall|j: int| 0 <= j < i ==> reads@[j] is Some,
            forall|j: int| 0 <= j < i ==> (#[trigger] infos@[j])@ == normalized_info(reads@[j]->0),
        decreases reads@.len() - i,
    {
        match &reads[i] {
            None => {
                return Err(Error::new(CHANNEL_INFO_FAILED));
            },
            Some(raw) => {
                infos.push(ChannelInfo::from_raw(raw));
            },
        }
        i = i + 1;
    }
    assert(infos@.map_values(|info: ChannelInfo| info@) =~= listing(reads@));
    Ok(infos)
}

/// A listing of present channels has one entry per channel read, each entry the
/// normalized record of that channel with its serial number free of trailing spaces and
/// NULs, so that two listings of unchanged hardware agree entry by entry.
pub proof fn lemma_listing_repeatable(
    first: Seq<Option<RawChannelInfo>>,
    second: Seq<Option<RawChannelInfo>>,
)
    requires
        all_read(first),
        first == second,
    ensures
        listing(first).len() == first.len(),
        listing(first) == listing(second),
        forall|i: int|
            0 <= i < first.len() ==> {
                let serial = #[trigger] listing(first)[i].board_serial_number;
                serial.len() > 0 ==> !crate::info::is_blank(serial.last())
            },
{
    assert forall|i: int| 0 <= i < first.len() implies {
        let serial = #[trigger] listing(first)[i].board_serial_number;
        serial.len() > 0 ==> !crate::info::is_blank(serial.last())
    } by {
        crate::info::lemma_trimmed_has_no_trailing_blank(
            crate::info::c_str(first[i]->0.board_serial_number@),
        );
    }
}

/// What acquiring a channel's handle reports, given the outcome of each step in turn:
/// whether the SDK initialised, whether the device list lock was taken, the result code
/// of the rescan, and the handle that the native open returned. The first step that
/// fails decides the error.
pub open spec fn open_handle_result(initialized: bool, locked: bool, refresh: u32, raw: u64) -> Result<
    (),
    Error,
> {
    if !initialized {
        outcome(false, INIT_FAILED)
    } else if !locked {
        outcome(false, LOCK_FAILED)
    } else if refresh != MW_SUCCEEDED {
        outcome(false, REFRESH_FAILED)
    } else {
        outcome(raw != 0, OPEN_FAILED)
    }
}

/// Opening a channel where no hardware answers, so that the native open returns a null
/// handle after the SDK initialised, the lock was taken and the rescan succeeded, fails
/// with "unable to open channel" and yields no handle; whatever the steps report,
/// acquiring the handle ends in success or in one of four errors. `Channel::open` reports
/// exactly the error of `open_handle_result` when there is one.
pub proof fn lemma_open_without_hardware(initialized: bool, locked: bool, refresh: u32, raw: u64)
    ensures
        initialized && locked && refresh == MW_SUCCEEDED ==> open_handle_result(
            initialized,
            locked,
            refresh,
            0,
        ) == Err::<(), Error>(Error::spec_new(OPEN_FAILED)),
        open_handle_result(initialized, locked, refresh, raw) is Ok <==> initialized && locked
            && refresh == MW_SUCCEEDED && raw != 0,
        open_handle_result(initialized, locked, refresh, raw) matches Err(e) ==> e
            == Error::spec_new(INIT_FAILED) || e == Error::spec_new(LOCK_FAILED) || e
            == Error::spec_new(REFRESH_FAILED) || e == Error::spec_new(OPEN_FAILED),
{
}

/// What opening reports once the handle and the identity `info` are in hand: the family
/// that `info` names decides the variant, and the completion source `event` must exist.
pub open spec fn opened_as(
    r: Result<Channel, Error>,
    raw_handle: u64,
    info: ChannelInfoView,
    event: Option<u64>,
) -> bool {
    if is_eco(info) {
        match event {
            None => r == Err::<Channel, Error>(Error::spec_new(EVENTFD_FAILED)),
            Some(fd) => r matches Ok(Channel::Eco(ch)) && ch.video_frame() is None
                && ch.base_spec().handle_spec().raw_spec() == raw_handle
                && ch.base_spec().info_spec()@ == info && ch.base_spec().event_spec() == fd
                && ch.base_spec().subscriptions() == Seq::<(u64, u32)>::empty(),
        }
    } else {
        match event {
            Some(ev) if ev != 0 => r matches Ok(Channel::Pro(ch))
                && ch.base_spec().handle_spec().raw_spec() == raw_handle
                && ch.base_spec().info_spec()@ == info && ch.base_spec().event_spec() == ev
                && ch.base_spec().subscriptions() == Seq::<(u64, u32)>::empty(),
            _ => r == Err::<Channel, Error>(Error::spec_new(EVENT_FAILED)),
        }
    }
}

/// An open channel of either family.
#[derive(Debug)]
pub enum Channel {
    Eco(EcoChannel),
    Pro(ProChannel),
}

/// The part of `ch` that both families share.
pub open spec fn channel_base(ch: Channel) -> ChannelBase {
    match ch {
        Channel::Eco(eco) => eco.base_spec(),
        Channel::Pro(pro) => pro.base_spec(),
    }
}

impl Channel {
    pub fn base(&self) -> (r: &ChannelBase)
        ensures
            *r == channel_base(*self),
    {
        match self {
            Channel::Eco(ch) => ch.base(),
            Channel::Pro(ch) => ch.base(),
        }
    }

    pub fn base_mut(&mut self) -> (r: &mut ChannelBase)
        ensures
            *r == channel_base(*old(self)),
            channel_base(*final(self)) == *final(r),
            *old(self) is Eco <==> *final(self) is Eco,
            *old(self) is Eco ==> final(self)->Eco_0.video_frame() == old(self)->Eco_0.video_frame(),
    {
        match self {
            Channel::Eco(ch) => ch.base_mut(),
            Channel::Pro(ch) => ch.base_mut(),
        }
    }

    /// Opens the channel, given the outcome of each native step in turn: whether the SDK
    /// initialised, whether the device list lock was taken, the result code of the rescan,
    /// the handle that the native open returned (null when no channel answers), the result
    /// code and record of the identity read, and the completion source created for the
    /// family that the record names (`None`, or a null event object, when creating it
    /// failed). The first step that fails decides the error; otherwise the channel opens
    /// as an `EcoChannel` or a `ProChannel` by its family.
    pub fn open(
        initialized: bool,
        locked: bool,
        refresh: u32,
        raw_handle: u64,
        info_code: u32,
        raw_info: &RawChannelInfo,
        event: Option<u64>,
    ) -> (r: Result<Channel, Error>)
        ensures
            open_handle_result(initialized, locked, refresh, raw_handle) matches Err(e) ==> r
                == Err::<Channel, Error>(e),
            open_handle_result(initialized, locked, refresh, raw_handle) is Ok && info_code
                != MW_SUCCEEDED ==> r == Err::<Channel, Error>(Error::spec_new(CHANNEL_INFO_FAILED)),
            open_handle_result(initialized, locked, refresh, raw_handle) is Ok && info_code
                == MW_SUCCEEDED ==> opened_as(r, raw_handle, normalized_info(*raw_info), event),
    {
        if !initialized {
            return Err(Error::new(INIT_FAILED));
        }
        if !locked {
            return Err(Error::new(LOCK_FAILED));
        }
        if let Err(e) = check_status(refresh, REFRESH_FAILED) {
            return Err(e);
        }
        let handle = match ChannelHandle::from_raw(raw_handle) {
            Ok(h) => h,
            Err(e) => {
                return Err(e);
            },
        };
        let info = match read_channel_info(info_code, raw_info) {
            Ok(i) => i,
            Err(e) => {
                return Err(e);
            },
        };
        if is_eco_family(&info) {
            match EcoChannel::new(handle, info, event) {
                Ok(ch) => Ok(Channel::Eco(ch)),
                Err(e) => Err(e),
            }
        } else {
            match event {
                None => Err(Error::new(EVENT_FAILED)),
                Some(ev) => match ProChannel::new(handle, info, ev) {
                    Ok(ch) => Ok(Channel::Pro(ch)),
                    Err(e) => Err(e),
                },
            }
        }
    }
}

} // verus!
