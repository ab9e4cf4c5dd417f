//! Device information payloads and the light state decoded from them.
//!
//! Colour components travel as bytes: each is a step of 1/255 of its full
//! range (360 degrees for the hue, 1 for saturation and value). The light
//! state keeps them in that form, exactly as the device reported them.
use vstd::prelude::*;

verus! {

/// Colour of the light as its three wire bytes.
#[derive(Clone, Copy, Debug, PartialEq, Eq, Structural)]
pub struct HSVColor {
    /// Hue, in steps of 360/255 degrees.
    pub h: u8,
    /// Saturation, in steps of 1/255.
    pub s: u8,
    /// Value (brightness), in steps of 1/255.
    pub v: u8,
}

/// `n / d` rounded to the nearest integer, halves rounded up.
pub open spec fn round_ratio(n: int, d: int) -> int {
    (2 * n + d) / (2 * d)
}

/// The byte that stands for `percent` (capped at 100) of a full range.
pub open spec fn byte_of_percent(percent: u8) -> u8 {
    let p = if percent > 100 { 100 } else { percent as int };
    round_ratio(p * 255, 100) as u8
}

/// The whole percentage nearest to a byte of a full range.
pub open spec fn percent_of_byte(b: u8) -> u8 {
    round_ratio(b * 100, 255) as u8
}

/// Capped at 100, a whole percentage survives the trip to a byte and back.
pub proof fn lemma_percent_round_trip(percent: u8)
    ensures
        percent_of_byte(byte_of_percent(percent)) == if percent > 100 {
            100
        } else {
            percent
        },
{
    let p: int = if percent > 100 { 100 } else { percent as int };
    let b: int = (2 * (p * 255) + 100) / 200;
    assert(0 <= b <= 255) by (nonlinear_arith)
        requires
            0 <= p <= 100,
            b == (2 * (p * 255) + 100) / 200,
    ;
    assert((2 * (b * 100) + 255) / 510 == p) by (nonlinear_arith)
        requires
            0 <= p <= 100,
            b == (2 * (p * 255) + 100) / 200,
    ;
}

impl HSVColor {
    /// Colour reported when the device gives none.
    pub fn off() -> (r: HSVColor)
        ensures
            r == (HSVColor { h: 0, s: 0, v: 0 }),
    {
        HSVColor { h: 0, s: 0, v: 0 }
    }

    /// Brightness as a whole percentage, rounded to nearest.
    pub fn brightness_percent(&self) -> (r: u8)
        ensures
            r == percent_of_byte(self.v),
            r <= 100,
    {
        percent_from_byte(self.v)
    }

    /// Saturation as a whole percentage, rounded to nearest.
    pub fn saturation_percent(&self) -> (r: u8)
        ensures
            r == percent_of_byte(self.s),
            r <= 100,
    {
        percent_from_byte(self.s)
    }

    /// Hue in whole degrees, rounded to nearest.
    pub fn hue_degrees(&self) -> (r: u16)
        ensures
            r == round_ratio(self.h * 360, 255),
            r <= 360,
    {
        let n: u32 = 2 * (self.h as u32 * 360) + 255;
        (n / 510) as u16
    }

    /// This colour with its value set to `percent` of full brightness
    /// (capped at 100).
    pub fn with_brightness_percent(&self, percent: u8) -> (r: HSVColor)
        ensures
            r == (HSVColor { v: byte_of_percent(percent), ..*self }),
    {
        HSVColor { h: self.h, s: self.s, v: byte_from_percent(percent) }
    }

    /// This colour with its saturation set to `percent` (capped at 100).
    pub fn with_saturation_percent(&self, percent: u8) -> (r: HSVColor)
        ensures
            r == (HSVColor { s: byte_of_percent(percent), ..*self }),
    {
        HSVColor { h: self.h, s: byte_from_percent(percent), v: self.v }
    }
}

/// The whole percentage nearest to a byte of a full range.
pub fn percent_from_byte(b: u8) -> (r: u8)
    ensures
        r == percent_of_byte(b),
        r <= 100,
{
    let n: u32 = 2 * (b as u32 * 100) + 255;
    assert(n / 510 <= 100);
    (n / 510) as u8
}

/// The byte nearest to `percent` of a full range; percentages above 100
/// count as 100.
pub fn byte_from_percent(percent: u8) -> (r: u8)
    ensures
        r == byte_of_percent(percent),
{
    let p: u32 = if percent > 100 { 100 } else { percent as u32 };
    let n: u32 = 2 * (p * 255) + 100;
    assert(n / 200 <= 255);
    (n / 200) as u8
}

/// State of the light as last reported by the device.
#[derive(Clone, Debug)]
pub struct LightInfo {
    pub name: String,
    pub is_on: bool,
    pub color: HSVColor,
}

/// Abstract value of a light state.
pub struct LightInfoModel {
    pub name: Seq<char>,
    pub is_on: bool,
    pub color: HSVColor,
}

impl View for LightInfo {
    type V = LightInfoModel;

    open spec fn view(&self) -> LightInfoModel {
        LightInfoModel { name: self.name@, is_on: self.is_on, color: self.color }
    }
}

/// Why a device information payload could not be decoded.
#[derive(Clone, Copy, Debug, PartialEq, Eq, Structural)]
pub enum PayloadError {
    /// The name bytes are not valid UTF-8.
    NameNotUtf8,
}

/// What a UTF-8 decoder makes of `bytes`: the characters they encode, or
/// nothing when they are not valid UTF-8.
pub uninterp spec fn utf8_decoded(bytes: Seq<u8>) -> Option<Seq<char>>;

/// Relies on `String::from_utf8`: it succeeds exactly on valid UTF-8 and
/// then holds the characters that the bytes encode.
#[verifier::external_body]
fn string_from_utf8(bytes: Vec<u8>) -> (r: Option<String>)
    ensures
        r matches Some(s) ==> utf8_decoded(bytes@) == Some(s@),
        r is None ==> utf8_decoded(bytes@) is None,
{
    String::from_utf8(bytes).ok()
}

/// Index of the first zero byte at or after `i`, or the length when there is
/// none.
pub open spec fn zero_from(data: Seq<u8>, i: int) -> int
    decreases data.len() - i,
{
    if i >= data.len() {
        data.len() as int
    } else if data[i] == 0 {
        i
    } else {
        zero_from(data, i + 1)
    }
}

/// Length of the name: the bytes before the first zero byte.
pub open spec fn name_end(data: Seq<u8>) -> int {
    zero_from(data, 0)
}

/// The name bytes of a device information payload.
pub open spec fn name_bytes(data: Seq<u8>) -> Seq<u8> {
    data.take(name_end(data))
}

/// The bytes after the name's terminating zero (none if it is missing).
pub open spec fn after_name(data: Seq<u8>) -> Seq<u8> {
    if name_end(data) < data.len() {
        data.skip(name_end(data) + 1)
    } else {
        Seq::empty()
    }
}

/// Power state: the byte after the name, when present, is non-zero.
pub open spec fn power_of(data: Seq<u8>) -> bool {
    let rest = after_name(data);
    rest.len() > 0 && rest[0] != 0
}

/// Colour state code of a solid colour.
pub const COLOR_STATE_SOLID: u8 = 0x00;

/// Colour: the three bytes after the colour state when that state is solid
/// and they are all present, else the default colour. An animation (colour
/// state `0x01`) or an unknown state leaves the default colour, and the
/// animation and schedule data that may follow are not read.
pub open spec fn color_of(data: Seq<u8>) -> HSVColor {
    let rest = after_name(data);
    if rest.len() >= 5 && rest[1] == COLOR_STATE_SOLID {
        HSVColor { h: rest[2], s: rest[3], v: rest[4] }
    } else {
        HSVColor { h: 0, s: 0, v: 0 }
    }
}

/// The light state that a payload describes, given the decoded name.
pub open spec fn light_of(name: Seq<char>, data: Seq<u8>) -> LightInfoModel {
    LightInfoModel { name, is_on: power_of(data), color: color_of(data) }
}

/// Index of the first zero byte of `data`, or its length.
fn find_name_end(data: &[u8]) -> (r: usize)
    ensures
        r as int == name_end(data@),
{
    let mut i: usize = 0;
    while i < data.len() && data[i] != 0
        invariant
            i <= data@.len(),
            zero_from(data@, i as int) == name_end(data@),
        decreases data@.len() - i,
    {
        i = i + 1;
    }
    i
}

proof fn lemma_name_end_bounds(data: Seq<u8>, i: int)
    requires
        0 <= i <= data.len(),
    ensures
        i <= zero_from(data, i) <= data.len(),
        zero_from(data, i) < data.len() ==> data[zero_from(data, i)] == 0,
    decreases data.len() - i,
{
    if i < data.len() && data[i] != 0 {
        lemma_name_end_bounds(data, i + 1);
    }
}

impl LightInfo {
    /// A copy of this light state.
    pub fn duplicate(&self) -> (r: LightInfo)
        ensures
            r@ == self@,
    {
        LightInfo { name: self.name.clone(), is_on: self.is_on, color: self.color }
    }

    /// Builds the light state from the payload's fields after the name:
    /// the power byte and the colour, with any later bytes ignored.
    pub fn from_name_and_payload(name: String, data: &[u8]) -> (r: LightInfo)
        ensures
            r@ == light_of(name@, data@),
    {
        let end = find_name_end(data);
        proof {
            lemma_name_end_bounds(data@, 0);
        }
        let mut is_on = false;
        let mut color = HSVColor::off();
        if end < data.len() {
            let start = end + 1;
            proof {
                let rest = data@.skip(start as int);
                assert(rest.len() == data@.len() - start);
                assert forall|k: int| 0 <= k < rest.len() implies rest[k] == data@[start + k] by {}
            }
            if start < data.len() {
                is_on = data[start] != 0;
            }
            if data.len() - start >= 5 && data[start + 1] == COLOR_STATE_SOLID {
                color = HSVColor { h: data[start + 2], s: data[start + 3], v: data[start + 4] };
            }
        }
        LightInfo { name, is_on, color }
    }

    /// Decodes a device information payload:
    /// `name | 0x00 | power | colour state | [h | s | v] | ...`.
    /// Fails only when the name is not valid UTF-8; missing fields keep
    /// their defaults and trailing bytes are ignored.
    pub fn from_raw_data(data: &[u8]) -> (r: Result<LightInfo, PayloadError>)
        ensures
            r matches Ok(info) ==> utf8_decoded(name_bytes(data@)) == Some(info.name@) && info@
                == light_of(info.name@, data@),
            r matches Err(e) ==> e == PayloadError::NameNotUtf8 && utf8_decoded(
                name_bytes(data@),
            ) is None,
    {
        let end = find_name_end(data);
        proof {
            lemma_name_end_bounds(data@, 0);
        }
        let mut name_data: Vec<u8> = Vec::new();
        let mut i: usize = 0;
        while i < end
            invariant
                end as int == name_end(data@),
                end <= data@.len(),
                i <= end,
                name_data@ == data@.take(i as int),
            decreases end - i,
        {
            name_data.push(data[i]);
            assert(data@.take(i as int).push(data@[i as int]) == data@.take(i + 1));
            i = i + 1;
        }
        match string_from_utf8(name_data) {
            Some(name) => Ok(LightInfo::from_name_and_payload(name, data)),
            None => Err(PayloadError::NameNotUtf8),
        }
    }
}

} // verus!
