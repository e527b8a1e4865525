use crate::error::{Error, MW_SUCCEEDED, REGISTER_NOTIFY_FAILED, UNREGISTER_NOTIFY_FAILED};
use vstd::prelude::*;

verus! {

/// Every hardware event class that a notify mask can name.
pub const ALL_NOTIFY_EVENTS: u32 = 0x3_ffff;

/// Bits of the hardware event classes.
pub const NOTIFY_INPUT_SORUCE_START_SCAN: u32 = 1;
pub const NOTIFY_INPUT_SORUCE_STOP_SCAN: u32 = 2;
pub const NOTIFY_INPUT_SORUCE_SCAN_CHANGE: u32 = 3;
pub const NOTIFY_VIDEO_INPUT_SOURCE_CHANGE: u32 = 4;
pub const NOTIFY_AUDIO_INPUT_SOURCE_CHANGE: u32 = 8;
pub const NOTIFY_INPUT_SPECIFIC_CHANGE: u32 = 16;
pub const NOTIFY_VIDEO_SIGNAL_CHANGE: u32 = 32;
pub const NOTIFY_AUDIO_SIGNAL_CHANGE: u32 = 64;
pub const NOTIFY_VIDEO_FIELD_BUFFERING: u32 = 128;
pub const NOTIFY_VIDEO_FRAME_BUFFERING: u32 = 256;
pub const NOTIFY_VIDEO_FIELD_BUFFERED: u32 = 512;
pub const NOTIFY_VIDEO_FRAME_BUFFERED: u32 = 1024;
pub const NOTIFY_VIDEO_SMPTE_TIME_CODE: u32 = 2048;
pub const NOTIFY_AUDIO_FRAME_BUFFERED: u32 = 4096;
pub const NOTIFY_AUDIO_INPUT_RESET: u32 = 8192;
pub const NOTIFY_VIDEO_SAMPLING_PHASE_CHANGE: u32 = 16384;
pub const NOTIFY_LOOP_THROUGH_CHANGED: u32 = 32768;
pub const NOTIFY_LOOP_THROUGH_EDID_CHANGED: u32 = 65536;
pub const NOTIFY_NEW_SDI_ANC_PACKET: u32 = 131072;

/// A set of hardware event classes that wake a waiting channel.
#[derive(Debug, Clone, Copy, PartialEq, Eq, Structural)]
pub struct NotifyEvents {
    bits: u32,
}

impl NotifyEvents {
    pub closed spec fn mask(&self) -> u32 {
        self.bits
    }

    pub fn empty() -> (r: NotifyEvents)
        ensures
            r.mask() == 0,
    {
        NotifyEvents { bits: 0 }
    }

    /// The classes named by `bits`, dropping bits that name none.
    pub fn from_bits_truncate(bits: u32) -> (r: NotifyEvents)
        ensures
            r.mask() == bits & ALL_NOTIFY_EVENTS,
    {
        NotifyEvents { bits: bits & ALL_NOTIFY_EVENTS }
    }

    pub fn bits(&self) -> (r: u32)
        ensures
            r == self.mask(),
    {
        self.bits
    }

    pub fn union(self, other: NotifyEvents) -> (r: NotifyEvents)
        ensures
            r.mask() == self.mask() | other.mask(),
    {
        NotifyEvents { bits: self.bits | other.bits }
    }

    pub fn contains(&self, other: NotifyEvents) -> (r: bool)
        ensures
            r == (self.mask() & other.mask() == other.mask()),
    {
        self.bits & other.bits == other.bits
    }

    pub fn intersects(&self, other: NotifyEvents) -> (r: bool)
        ensures
            r == (self.mask() & other.mask() != 0),
    {
        self.bits & other.bits != 0
    }
}

/// The token by which the hardware knows one subscription.
#[derive(Debug, Clone, Copy, PartialEq, Eq, Structural)]
pub struct NotifyHandle {
    token: u64,
}

impl NotifyHandle {
    pub closed spec fn token_spec(&self) -> u64 {
        self.token
    }

    pub fn token(&self) -> (r: u64)
        ensures
            r == self.token_spec(),
    {
        self.token
    }
}

/// Whether a subscription is not the one with `token`.
pub open spec fn other_than(token: u64) -> spec_fn((u64, u32)) -> bool {
    |p: (u64, u32)| p.0 != token
}

/// The subscriptions of `s` other than the one with `token`.
pub open spec fn without_token(s: Seq<(u64, u32)>, token: u64) -> Seq<(u64, u32)> {
    s.filter(other_than(token))
}

/// Whether an event of one of the classes in `events` signals a completion source with
/// the subscriptions `s`.
pub open spec fn wakes(s: Seq<(u64, u32)>, events: u32) -> bool {
    exists|i: int| 0 <= i < s.len() && s[i].1 & events != 0
}

/// The subscriptions of a channel's completion source to hardware event classes: one
/// (token, mask) pair for each live registration, oldest first.
#[derive(Debug)]
pub struct NotifyRegistry {
    registrations: Vec<(u64, u32)>,
}

impl View for NotifyRegistry {
    type V = Seq<(u64, u32)>;

    closed spec fn view(&self) -> Seq<(u64, u32)> {
        self.registrations@
    }
}

impl NotifyRegistry {
    /// A completion source with no subscriptions.
    pub fn new() -> (r: NotifyRegistry)
        ensures
            r@ == Seq::<(u64, u32)>::empty(),
    {
        NotifyRegistry { registrations: Vec::new() }
    }

    fn remove_token(&mut self, token: u64)
        ensures
            final(self)@ == without_token(old(self)@, token),
    {
        let mut kept: Vec<(u64, u32)> = Vec::new();
        let mut i: usize = 0;
        while i < self.registrations.len()
            invariant
                i <= self.registrations@.len(),
                kept@ == self.registrations@.take(i as int).filter(other_than(token)),
            decreases self.registrations@.len() - i,
        {
            let p = self.registrations[i];
            let ghost s = self.registrations@;
            proof {
                reveal(Seq::filter);
                assert(s.take(i + 1).drop_last() =~= s.take(i as int));
                assert(s.take(i + 1).last() == p);
                assert(other_than(token)(p) == (p.0 != token));
            }
            if p.0 != token {
                kept.push(p);
            }
            i = i + 1;
        }
        assert(self.registrations@.take(i as int) =~= self.registrations@);
        self.registrations = kept;
    }

    /// Records the subscription that the hardware accepted under `token`; a zero token
    /// means that it refused it.
    pub fn register_notify(&mut self, events: NotifyEvents, token: u64) -> (r: Result<
        NotifyHandle,
        Error,
    >)
        ensures
            token == 0 ==> r == Err::<NotifyHandle, Error>(Error::spec_new(REGISTER_NOTIFY_FAILED))
                && final(self)@ == old(self)@,
            token != 0 ==> r is Ok && r->Ok_0.token_spec() == token && final(self)@ == without_token(
                old(self)@,
                token,
            ).push((token, events.mask())),
    {
        if token == 0 {
            return Err(Error::new(REGISTER_NOTIFY_FAILED));
        }
        self.remove_token(token);
        self.registrations.push((token, events.bits));
        Ok(NotifyHandle { token })
    }

    /// Drops the subscription `handle` once the hardware has reported `code` for its
    /// removal.
    pub fn unregister_notify(&mut self, handle: NotifyHandle, code: u32) -> (r: Result<(), Error>)
        ensures
            code == MW_SUCCEEDED ==> r == Ok::<(), Error>(()) && final(self)@ == without_token(
                old(self)@,
                handle.token_spec(),
            ),
            code != MW_SUCCEEDED ==> r == Err::<(), Error>(Error::spec_new(UNREGISTER_NOTIFY_FAILED))
                && final(self)@ == old(self)@,
    {
        if code != MW_SUCCEEDED {
            return Err(Error::new(UNREGISTER_NOTIFY_FAILED));
        }
        self.remove_token(handle.token);
        Ok(())
    }

    /// Whether an event of one of the classes in `events` wakes the channel.
    pub fn wakes_on(&self, events: NotifyEvents) -> (r: bool)
        ensures
            r == wakes(self@, events.mask()),
    {
        let mut i: usize = 0;
        while i < self.registrations.len()
            invariant
                i <= self.registrations@.len(),
                forall|j: int| 0 <= j < i ==> self.registrations@[j].1 & events.mask() == 0,
            decreases self.registrations@.len() - i,
        {
            if self.registrations[i].1 & events.bits != 0 {
                return true;
            }
            i = i + 1;
        }
        false
    }

    /// Registering a subscription and then removing it leaves the completion source with
    /// the subscriptions it had before, less any under the same token: no event class
    /// wakes it afterwards that did not wake it before, and a source that had no
    /// subscriptions wakes on no event at all.
    pub proof fn lemma_register_then_unregister(
        before: Seq<(u64, u32)>,
        events: NotifyEvents,
        token: u64,
        probe: u32,
    )
        requires
            token != 0,
        ensures
            ({
                let after = without_token(
                    without_token(before, token).push((token, events.mask())),
                    token,
                );
                &&& after == without_token(before, token)
                &&& (forall|i: int| 0 <= i < before.len() ==> before[i].0 != token) ==> after
                    == before
                &&& wakes(after, probe) ==> wakes(before, probe)
                &&& before.len() == 0 ==> !wakes(after, probe)
            }),
    {
        let kept = without_token(before, token);
        lemma_without_token_push_same(kept, token, events.mask());
        lemma_without_token_twice(before, token);
        lemma_without_token_absent(before, token);
        lemma_without_token_members(before, token);
        reveal(Seq::filter);
    }
}

proof fn lemma_without_token_push_same(s: Seq<(u64, u32)>, token: u64, mask: u32)
    ensures
        without_token(s.push((token, mask)), token) == without_token(s, token),
{
    reveal(Seq::filter);
    assert(s.push((token, mask)).drop_last() =~= s);
}

proof fn lemma_without_token_twice(s: Seq<(u64, u32)>, token: u64)
    ensures
        without_token(without_token(s, token), token) == without_token(s, token),
    decreases s.len(),
{
    reveal(Seq::filter);
    if s.len() > 0 {
        lemma_without_token_twice(s.drop_last(), token);
        let sub = without_token(s.drop_last(), token);
        if s.last().0 != token {
            assert(sub.push(s.last()).drop_last() =~= sub);
        }
    }
}

proof fn lemma_without_token_absent(s: Seq<(u64, u32)>, token: u64)
    ensures
        (forall|i: int| 0 <= i < s.len() ==> s[i].0 != token) ==> without_token(s, token) == s,
    decreases s.len(),
{
    reveal(Seq::filter);
    if s.len() > 0 {
        lemma_without_token_absent(s.drop_last(), token);
        if forall|i: int| 0 <= i < s.len() ==> s[i].0 != token {
            assert(forall|i: int|
                0 <= i < s.drop_last().len() ==> s.drop_last()[i] == s[i]);
            assert(s.drop_last().push(s.last()) =~= s);
        }
    }
}

proof fn lemma_without_token_members(s: Seq<(u64, u32)>, token: u64)
    ensures
        forall|i: int|
            0 <= i < without_token(s, token).len() ==> s.contains(
                #[trigger] without_token(s, token)[i],
            ),
    decreases s.len(),
{
    reveal(Seq::filter);
    if s.len() > 0 {
        let d = s.drop_last();
        lemma_without_token_members(d, token);
        let w = without_token(s, token);
        assert forall|i: int| 0 <= i < w.len() implies s.contains(#[trigger] w[i]) by {
            let sub = without_token(d, token);
            if i < sub.len() {
                assert(d.contains(sub[i]));
                let j = choose|j: int| 0 <= j < d.len() && d[j] == sub[i];
                assert(s[j] == sub[i]);
            } else {
                assert(s[s.len() - 1] == w[i]);
            }
        }
    }
}

} // verus!
