use vstd::prelude::*;

verus! {

/// The bytes of a NUL-terminated field up to its first NUL (all of it when it holds none).
pub open spec fn c_str(s: Seq<u8>) -> Seq<u8>
    decreases s.len(),
{
    if s.len() == 0 || s[0] == 0 {
        Seq::empty()
    } else {
        seq![s[0]] + c_str(s.drop_first())
    }
}

/// Whether `b` is padding that the hardware leaves at the end of a serial number.
pub open spec fn is_blank(b: u8) -> bool {
    b == 0 || b == 0x20
}

/// `s` without its trailing run of spaces and NULs.
pub open spec fn trim_blanks(s: Seq<u8>) -> Seq<u8>
    decreases s.len(),
{
    if s.len() > 0 && is_blank(s.last()) {
        trim_blanks(s.drop_last())
    } else {
        s
    }
}

/// A sequence with its trailing spaces and NULs removed ends in neither.
pub proof fn lemma_trimmed_has_no_trailing_blank(s: Seq<u8>)
    ensures
        trim_blanks(s).len() > 0 ==> !is_blank(trim_blanks(s).last()),
    decreases s.len(),
{
    if s.len() > 0 && is_blank(s.last()) {
        lemma_trimmed_has_no_trailing_blank(s.drop_last());
    }
}

proof fn lemma_c_str_has_no_nul(s: Seq<u8>)
    ensures
        forall|i: int| 0 <= i < c_str(s).len() ==> #[trigger] c_str(s)[i] != 0,
    decreases s.len(),
{
    if s.len() > 0 && s[0] != 0 {
        lemma_c_str_has_no_nul(s.drop_first());
        let rest = c_str(s.drop_first());
        assert forall|i: int| 0 <= i < c_str(s).len() implies c_str(s)[i] != 0 by {
            if i > 0 {
                assert(c_str(s)[i] == rest[i - 1]);
            }
        }
    }
}

proof fn lemma_trim_is_prefix(s: Seq<u8>)
    ensures
        trim_blanks(s).len() <= s.len(),
        trim_blanks(s) == s.take(trim_blanks(s).len() as int),
    decreases s.len(),
{
    if s.len() > 0 && is_blank(s.last()) {
        lemma_trim_is_prefix(s.drop_last());
        assert(s.drop_last().take(trim_blanks(s).len() as int) =~= s.take(
            trim_blanks(s).len() as int,
        ));
    } else {
        assert(s.take(s.len() as int) =~= s);
    }
}

/// The serial number of a channel is the text of the raw field up to its first NUL,
/// without trailing spaces: it holds no NUL and does not end in a space.
pub proof fn lemma_serial_number_trimmed(raw: RawChannelInfo)
    ensures
        ({
            let serial = normalized_info(raw).board_serial_number;
            &&& serial == trim_blanks(c_str(raw.board_serial_number@))
            &&& forall|i: int| 0 <= i < serial.len() ==> serial[i] != 0
            &&& serial.len() > 0 ==> serial.last() != 0x20
        }),
{
    let text = c_str(raw.board_serial_number@);
    lemma_c_str_has_no_nul(raw.board_serial_number@);
    lemma_trim_is_prefix(text);
    lemma_trimmed_has_no_trailing_blank(text);
    let serial = trim_blanks(text);
    assert forall|i: int| 0 <= i < serial.len() implies serial[i] != 0 by {
        assert(serial.len() <= text.len());
        assert(serial[i] == text.take(serial.len() as int)[i]);
    }
}

/// The identity record as the native SDK fills it: fixed-size, NUL-padded name fields
/// and packed version words.
#[derive(Debug)]
pub struct RawChannelInfo {
    pub board_index: u8,
    pub channel_index: u8,
    pub board_serial_number: Vec<u8>,
    pub firmware_name: Vec<u8>,
    pub product_name: Vec<u8>,
    pub family_name: Vec<u8>,
    pub firmware_version: u32,
    pub driver_version: u32,
    pub hardware_version: u8,
}

/// What a `ChannelInfo` holds.
pub struct ChannelInfoView {
    pub board_index: u8,
    pub channel_index: u8,
    pub board_serial_number: Seq<u8>,
    pub firmware_name: Seq<u8>,
    pub product_name: Seq<u8>,
    pub family_name: Seq<u8>,
    pub firmware_version: u32,
    pub driver_version: u32,
    pub hardware_version: u8,
}

/// Immutable identity snapshot of a channel, read once when it is opened or listed.
#[derive(Debug)]
pub struct ChannelInfo {
    board_index: u8,
    channel_index: u8,
    board_serial_number: Vec<u8>,
    firmware_name: Vec<u8>,
    product_name: Vec<u8>,
    family_name: Vec<u8>,
    firmware_version: u32,
    driver_version: u32,
    hardware_version: u8,
}

impl View for ChannelInfo {
    type V = ChannelInfoView;

    closed spec fn view(&self) -> ChannelInfoView {
        ChannelInfoView {
            board_index: self.board_index,
            channel_index: self.channel_index,
            board_serial_number: self.board_serial_number@,
            firmware_name: self.firmware_name@,
            product_name: self.product_name@,
            family_name: self.family_name@,
            firmware_version: self.firmware_version,
            driver_version: self.driver_version,
            hardware_version: self.hardware_version,
        }
    }
}

/// The identity that a raw record describes: names cut at their first NUL, and the
/// serial number without its trailing spaces.
pub open spec fn normalized_info(raw: RawChannelInfo) -> ChannelInfoView {
    ChannelInfoView {
        board_index: raw.board_index,
        channel_index: raw.channel_index,
        board_serial_number: trim_blanks(c_str(raw.board_serial_number@)),
        firmware_name: c_str(raw.firmware_name@),
        product_name: c_str(raw.product_name@),
        family_name: c_str(raw.family_name@),
        firmware_version: raw.firmware_version,
        driver_version: raw.driver_version,
        hardware_version: raw.hardware_version,
    }
}

proof fn lemma_c_str_prefix(s: Seq<u8>, i: int)
    requires
        0 <= i <= s.len(),
        forall|j: int| 0 <= j < i ==> s[j] != 0,
        i == s.len() || s[i] == 0,
    ensures
        c_str(s) == s.take(i),
    decreases i,
{
    if i == 0 {
        assert(s.take(0) =~= Seq::<u8>::empty());
    } else {
        let t = s.drop_first();
        assert forall|j: int| 0 <= j < i - 1 implies t[j] != 0 by {
            assert(t[j] == s[j + 1]);
        }
        lemma_c_str_prefix(t, i - 1);
        assert(s.take(i) =~= seq![s[0]] + t.take(i - 1));
    }
}

/// The bytes of `field` before its first NUL.
fn c_str_of(field: &Vec<u8>) -> (r: Vec<u8>)
    ensures
        r@ == c_str(field@),
{
    let mut r: Vec<u8> = Vec::new();
    let mut i: usize = 0;
    while i < field.len() && field[i] != 0
        invariant
            i <= field@.len(),
            r@ == field@.take(i as int),
            forall|j: int| 0 <= j < i ==> field@[j] != 0,
        decreases field@.len() - i,
    {
        r.push(field[i]);
        i = i + 1;
        assert(r@ =~= field@.take(i as int));
    }
    proof {
        lemma_c_str_prefix(field@, i as int);
    }
    r
}

/// Removes the trailing spaces and NULs of `s`.
fn trim_trailing_blanks(s: &mut Vec<u8>)
    ensures
        final(s)@ == trim_blanks(old(s)@),
{
    while s.len() > 0 && (s[s.len() - 1] == 0 || s[s.len() - 1] == 0x20)
        invariant
            trim_blanks(s@) == trim_blanks(old(s)@),
        decreases s@.len(),
    {
        let ghost before = s@;
        s.pop();
        assert(s@ =~= before.drop_last());
    }
}

impl ChannelInfo {
    /// Normalizes the record that the SDK filled.
    pub fn from_raw(raw: &RawChannelInfo) -> (r: ChannelInfo)
        ensures
            r@ == normalized_info(*raw),
    {
        let mut serial = c_str_of(&raw.board_serial_number);
        trim_trailing_blanks(&mut serial);
        ChannelInfo {
            board_index: raw.board_index,
            channel_index: raw.channel_index,
            board_serial_number: serial,
            firmware_name: c_str_of(&raw.firmware_name),
            product_name: c_str_of(&raw.product_name),
            family_name: c_str_of(&raw.family_name),
            firmware_version: raw.firmware_version,
            driver_version: raw.driver_version,
            hardware_version: raw.hardware_version,
        }
    }

    pub fn board_index(&self) -> (r: u8)
        ensures
            r == self@.board_index,
    {
        self.board_index
    }

    pub fn channel_index(&self) -> (r: u8)
        ensures
            r == self@.channel_index,
    {
        self.channel_index
    }

    /// The board's serial number, without trailing spaces.
    pub fn board_serial_number(&self) -> (r: &[u8])
        ensures
            r@ == self@.board_serial_number,
    {
        self.board_serial_number.as_slice()
    }

    pub fn firmware_name(&self) -> (r: &[u8])
        ensures
            r@ == self@.firmware_name,
    {
        self.firmware_name.as_slice()
    }

    pub fn product_name(&self) -> (r: &[u8])
        ensures
            r@ == self@.product_name,
    {
        self.product_name.as_slice()
    }

    pub fn family_name(&self) -> (r: &[u8])
        ensures
            r@ == self@.family_name,
    {
        self.family_name.as_slice()
    }

    /// Firmware version as (major, minor): the high and the low half of its word.
    pub fn firmware_version(&self) -> (r: (u16, u16))
        ensures
            r.0 == self@.firmware_version / 0x10000,
            r.1 == self@.firmware_version % 0x10000,
    {
        let v = self.firmware_version;
        assert((v >> 16u32) as u16 == v / 0x10000 && v as u16 == v % 0x10000) by (bit_vector);
        ((v >> 16u32) as u16, v as u16)
    }

    /// Driver version as (major, minor, build): the top byte, the next byte and the low
    /// half of its word.
    pub fn driver_version(&self) -> (r: (u8, u8, u16))
        ensures
            r.0 == self@.driver_version / 0x100_0000,
            r.1 == (self@.driver_version / 0x1_0000) % 0x100,
            r.2 == self@.driver_version % 0x1_0000,
    {
        let v = self.driver_version;
        assert((v >> 24u32) as u8 == v / 0x100_0000 && (v >> 16u32) as u8 == (v / 0x1_0000)
            % 0x100 && v as u16 == v % 0x1_0000) by (bit_vector);
        ((v >> 24u32) as u8, (v >> 16u32) as u8, v as u16)
    }

    /// Hardware revision letter.
    pub fn hardware_version(&self) -> (r: char)
        ensures
            r == self@.hardware_version as char,
    {
        self.hardware_version as char
    }
}

} // verus!
