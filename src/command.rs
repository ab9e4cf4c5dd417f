//! Outbound commands and their wire frames.
//!
//! A command frame is `0xFE | code | length | data | 0xFF`, the same framing
//! as the notifications that come back.
use vstd::prelude::*;
use crate::decoder::{
    DATA_BEGIN_BYTE,
    DATA_END_BYTE,
    DecoderPhase,
    HomeLightMessageType,
    MessageModel,
    frame_bytes,
    lemma_frame_outcome,
    run,
};
use crate::light::{COLOR_STATE_SOLID, HSVColor, after_name, color_of, name_end, zero_from};

verus! {

/// First byte of every command frame.
pub const COMMAND_START_BYTE: u8 = 0xFE;

/// Last byte of every command frame.
pub const COMMAND_END_BYTE: u8 = 0xFF;

/// A request to the light.
#[derive(Clone, Copy, Debug, PartialEq, Eq, Structural)]
pub enum Command {
    /// Set a solid colour, given as its wire bytes.
    SetLEDColor(HSVColor),
    /// Set the brightness, as a byte of full brightness.
    SetBrightness(u8),
    /// Ask the light to report its state.
    GetDeviceInfo,
}

/// Wire code of a command.
pub open spec fn command_code(c: Command) -> u8 {
    match c {
        Command::SetLEDColor(_) => 0x02,
        Command::SetBrightness(_) => 0x03,
        Command::GetDeviceInfo => 0x04,
    }
}

/// Data bytes of a command.
pub open spec fn command_data(c: Command) -> Seq<u8> {
    match c {
        Command::SetLEDColor(color) => seq![color.h, color.s, color.v],
        Command::SetBrightness(b) => seq![b],
        Command::GetDeviceInfo => Seq::empty(),
    }
}

/// The whole frame that carries a command.
pub open spec fn command_frame(c: Command) -> Seq<u8> {
    seq![COMMAND_START_BYTE, command_code(c), command_data(c).len() as u8] + command_data(c)
        + seq![COMMAND_END_BYTE]
}

impl Command {
    /// The command that switches the light on (full brightness) or off.
    pub fn power(on: bool) -> (r: Command)
        ensures
            r == Command::SetBrightness(if on { 255 } else { 0 }),
    {
        Command::SetBrightness(if on { 255 } else { 0 })
    }

    pub fn get_command_code(&self) -> (r: u8)
        ensures
            r == command_code(*self),
    {
        match self {
            Command::SetLEDColor(_) => 0x02,
            Command::SetBrightness(_) => 0x03,
            Command::GetDeviceInfo => 0x04,
        }
    }

    pub fn get_command_data(&self) -> (r: Vec<u8>)
        ensures
            r@ == command_data(*self),
    {
        match self {
            Command::SetLEDColor(color) => vec![color.h, color.s, color.v],
            Command::SetBrightness(brightness) => vec![*brightness],
            Command::GetDeviceInfo => Vec::new(),
        }
    }

    /// The frame to write to the device for this command.
    pub fn get_raw_data(&self) -> (r: Vec<u8>)
        ensures
            r@ == command_frame(*self),
    {
        let data = self.get_command_data();
        let mut raw_data = vec![COMMAND_START_BYTE, self.get_command_code(), data.len() as u8];
        let mut i: usize = 0;
        while i < data.len()
            invariant
                data@ == command_data(*self),
                data@.len() <= 3,
                i <= data@.len(),
                raw_data@ == seq![COMMAND_START_BYTE, command_code(*self), data@.len() as u8]
                    + data@.take(i as int),
            decreases data@.len() - i,
        {
            raw_data.push(data[i]);
            assert(data@.take(i + 1) == data@.take(i as int).push(data@[i as int]));
            i = i + 1;
        }
        assert(data@.take(i as int) == data@);
        raw_data.push(COMMAND_END_BYTE);
        raw_data
    }
}

/// The frame that asks the light for its state.
pub fn generate_get_device_info_command() -> (r: Vec<u8>)
    ensures
        r@ == command_frame(Command::GetDeviceInfo),
{
    Command::GetDeviceInfo.get_raw_data()
}

/// A colour command is itself a well-formed colour frame: the frame decoder
/// reads it back as one colour message whose payload is the command's three
/// colour bytes, and ends unsynchronised.
pub proof fn lemma_color_command_decodes(color: HSVColor)
    ensures
        run(DecoderPhase::Unsynchronized, command_frame(Command::SetLEDColor(color))) == (
            DecoderPhase::Unsynchronized,
            seq![
                MessageModel {
                    message_type: HomeLightMessageType::DeviceColor,
                    data: seq![color.h, color.s, color.v],
                },
            ],
        ),
{
    let data = seq![color.h, color.s, color.v];
    assert(command_frame(Command::SetLEDColor(color)) == frame_bytes(0x02, data, DATA_END_BYTE));
    lemma_frame_outcome(0x02, data, DATA_END_BYTE);
}

/// The colour bytes of a colour command, placed in a device information
/// payload after a name, a power byte and the solid colour state, decode to
/// the colour that was sent.
pub proof fn lemma_color_round_trip(name: Seq<u8>, power: u8, color: HSVColor)
    requires
        forall|i: int| 0 <= i < name.len() ==> name[i] != 0,
    ensures
        color_of(
            name + seq![0u8, power, COLOR_STATE_SOLID] + command_data(Command::SetLEDColor(color)),
        ) == color,
{
    let data = name + seq![0u8, power, COLOR_STATE_SOLID] + command_data(
        Command::SetLEDColor(color),
    );
    assert forall|i: int| 0 <= i < name.len() implies data[i] != 0 by {}
    assert(data[name.len() as int] == 0);
    assert forall|i: int| 0 <= i <= name.len() implies zero_from(data, i) == name.len() by {
        lemma_zero_from_skips(data, i, name.len() as int);
    }
    assert(name_end(data) == name.len());
    let rest = after_name(data);
    assert(rest == seq![power, COLOR_STATE_SOLID, color.h, color.s, color.v]);
}

proof fn lemma_zero_from_skips(data: Seq<u8>, i: int, z: int)
    requires
        0 <= i <= z < data.len(),
        data[z] == 0,
        forall|j: int| i <= j < z ==> data[j] != 0,
    ensures
        zero_from(data, i) == z,
    decreases z - i,
{
    if i < z {
        lemma_zero_from_skips(data, i + 1, z);
    }
}

} // verus!
