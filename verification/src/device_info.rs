//! The device information that the keyboard publishes over GATT.

use vstd::prelude::*;

verus! {

/// Bytes that a text characteristic holds.
pub const DEVICE_TEXT_SIZE: usize = 20;

/// Version of the product in the PnP characteristic.
pub const PRODUCT_VERSION: u16 = 0x0001;

#[derive(Clone, Copy, Debug, PartialEq, Eq, Structural)]
pub enum VidSource {
    BluetoothSIG,
    UsbIF,
}

#[derive(Clone, Copy, Debug, PartialEq, Eq, Structural)]
pub struct PnPID {
    pub vid_source: VidSource,
    pub vendor_id: u16,
    pub product_id: u16,
    pub product_version: u16,
}

pub fn pnp_id(vendor_id: u16, product_id: u16) -> (id: PnPID)
    ensures
        id == (PnPID {
            vid_source: VidSource::UsbIF,
            vendor_id,
            product_id,
            product_version: PRODUCT_VERSION,
        }),
{
    PnPID { vid_source: VidSource::UsbIF, vendor_id, product_id, product_version: PRODUCT_VERSION }
}

/// A text in the bounded string of `heapless` that a characteristic takes.
#[verifier::external_body]
pub struct DeviceText {
    text: heapless::String<DEVICE_TEXT_SIZE>,
}

/// The characters of a bounded text.
pub uninterp spec fn text_chars(text: DeviceText) -> Seq<char>;

/// Bytes that a text takes in UTF-8.
pub open spec fn utf8_len(chars: Seq<char>) -> nat {
    vstd::utf8::encode_utf8(chars).len()
}

/// Calls `heapless::String::new`: the empty text.
#[verifier::external_body]
fn empty_text() -> (text: DeviceText)
    ensures
        text_chars(text) == Seq::<char>::empty(),
{
    DeviceText { text: heapless::String::new() }
}

/// Calls `heapless::String::push`: the character is appended where its bytes
/// still fit; otherwise the text stays as it is.
#[verifier::external_body]
fn push_char(text: &mut DeviceText, c: char) -> (pushed: bool)
    ensures
        pushed == (utf8_len(text_chars(*old(text)).push(c)) <= DEVICE_TEXT_SIZE),
        text_chars(*final(text)) == (if pushed {
            text_chars(*old(text)).push(c)
        } else {
            text_chars(*old(text))
        }),
{
    text.text.push(c).is_ok()
}

/// Calls the `TryFrom<&str>` conversion of `heapless::String`: the whole text,
/// where its bytes fit.
#[verifier::external_body]
fn whole_text(source: &str) -> (text: Option<DeviceText>)
    ensures
        text is Some <==> utf8_len(source@) <= DEVICE_TEXT_SIZE,
        text is Some ==> text_chars(text->0) == source@,
{
    match heapless::String::try_from(source) {
        Ok(text) => Some(DeviceText { text }),
        Err(_) => None,
    }
}

/// Calls `heapless::String::as_str`: the text itself.
#[verifier::external_body]
fn text_str(text: &DeviceText) -> (chars: &str)
    ensures
        chars@ == text_chars(*text),
{
    text.text.as_str()
}

impl View for DeviceText {
    type V = Seq<char>;

    open spec fn view(&self) -> Seq<char> {
        text_chars(*self)
    }
}

/// The longest prefix of `chars`, cut before the first character that no longer
/// fits, that extends the first `taken` of them.
pub open spec fn fitting_prefix(chars: Seq<char>, taken: int) -> Seq<char>
    decreases chars.len() - taken,
{
    if 0 <= taken < chars.len() && utf8_len(chars.take(taken + 1)) <= DEVICE_TEXT_SIZE {
        fitting_prefix(chars, taken + 1)
    } else {
        chars.take(taken)
    }
}

impl DeviceText {
    /// The text as a string.
    pub fn as_str(&self) -> (chars: &str)
        ensures
            chars@ == self@,
    {
        text_str(self)
    }

    /// The serial number characteristic is length limited, so the serial number
    /// is cut at a character boundary when it is too long.
    pub fn serial_number(serial: &str) -> (text: DeviceText)
        ensures
            text@ == fitting_prefix(serial@, 0),
    {
        let mut text = empty_text();
        let count: usize = serial.unicode_len();
        let mut i: usize = 0;
        assert(serial@.take(0) =~= Seq::<char>::empty());
        while i < count
            invariant
                i <= count,
                count == serial@.len(),
                text@ == serial@.take(i as int),
                fitting_prefix(serial@, 0) == fitting_prefix(serial@, i as int),
            decreases count - i,
        {
            let c: char = serial.get_char(i);
            assert(serial@.take(i as int).push(c) =~= serial@.take(i as int + 1));
            if !push_char(&mut text, c) {
                return text;
            }
            i = i + 1;
        }
        text
    }

    /// The manufacturer name must fit as a whole.
    pub fn manufacturer_name(name: &str) -> (text: Option<DeviceText>)
        ensures
            text is Some <==> utf8_len(name@) <= DEVICE_TEXT_SIZE,
            text matches Some(text) ==> text@ == name@,
    {
        whole_text(name)
    }
}

/// A serial number is published whole where it fits; a longer one is cut to a
/// prefix that fits and that no further character would fit into.
pub proof fn law_serial_number_is_cut_at_most(chars: Seq<char>)
    ensures
        ({
            let text = fitting_prefix(chars, 0);
            &&& text == chars.take(text.len() as int)
            &&& utf8_len(text) <= DEVICE_TEXT_SIZE
            &&& text.len() < chars.len() ==> utf8_len(chars.take(text.len() as int + 1))
                > DEVICE_TEXT_SIZE
        }),
{
    assert(chars.take(0) =~= Seq::<char>::empty());
    assert(vstd::utf8::encode_utf8(Seq::<char>::empty()) =~= Seq::<u8>::empty());
    lemma_fitting_prefix(chars, 0);
}

proof fn lemma_fitting_prefix(chars: Seq<char>, taken: int)
    requires
        0 <= taken <= chars.len(),
        utf8_len(chars.take(taken)) <= DEVICE_TEXT_SIZE,
    ensures
        ({
            let text = fitting_prefix(chars, taken);
            &&& taken <= text.len() <= chars.len()
            &&& text == chars.take(text.len() as int)
            &&& utf8_len(text) <= DEVICE_TEXT_SIZE
            &&& text.len() < chars.len() ==> utf8_len(chars.take(text.len() as int + 1))
                > DEVICE_TEXT_SIZE
        }),
    decreases chars.len() - taken,
{
    if taken < chars.len() && utf8_len(chars.take(taken + 1)) <= DEVICE_TEXT_SIZE {
        lemma_fitting_prefix(chars, taken + 1);
    }
}

/// A text of the device information takes at most twenty bytes: a serial number
/// is cut to them at a character boundary and no earlier than it must be, and a
/// manufacturer name that needs more is refused.
pub proof fn law_device_texts_are_bounded()
    ensures
        forall|serial: &str, text: DeviceText| #[trigger]
            call_ensures(DeviceText::serial_number, (serial,), text) ==> {
                let kept = text@.len() as int;
                &&& kept <= serial@.len()
                &&& text@ == serial@.take(kept)
                &&& vstd::utf8::encode_utf8(text@).len() <= 20
                &&& kept < serial@.len() ==> vstd::utf8::encode_utf8(serial@.take(kept + 1)).len()
                    > 20
            },
        forall|name: &str, text: Option<DeviceText>| #[trigger]
            call_ensures(DeviceText::manufacturer_name, (name,), text) ==> {
                &&& text is Some <==> vstd::utf8::encode_utf8(name@).len() <= 20
                &&& text matches Some(whole) ==> whole@ == name@
            },
        forall|text: &DeviceText, chars: &str| #[trigger]
            call_ensures(DeviceText::as_str, (text,), chars) ==> chars@ == (*text)@,
{
    assert forall|serial: &str, text: DeviceText| #[trigger]
        call_ensures(DeviceText::serial_number, (serial,), text) implies {
        let kept = text@.len() as int;
        &&& kept <= serial@.len()
        &&& text@ == serial@.take(kept)
        &&& vstd::utf8::encode_utf8(text@).len() <= 20
        &&& kept < serial@.len() ==> vstd::utf8::encode_utf8(serial@.take(kept + 1)).len() > 20
    } by {
        assert(serial@.take(0) =~= Seq::<char>::empty());
        assert(vstd::utf8::encode_utf8(Seq::<char>::empty()) =~= Seq::<u8>::empty());
        lemma_fitting_prefix(serial@, 0);
    }
}

/// The identification carries the numbers of the USB vendor and product, and
/// the first version.
pub proof fn law_identification_is_that_of_usb()
    ensures
        forall|vendor: u16, product: u16, id: PnPID| #[trigger]
            call_ensures(pnp_id, (vendor, product), id) ==> id.vid_source == VidSource::UsbIF
                && id.vendor_id == vendor && id.product_id == product && id.product_version == 1,
{
}

} // verus!
