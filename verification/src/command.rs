//! The command algebra and the classifier that produces it from a raw
//! payload.

use vstd::prelude::*;
use crate::payload::{
    parse_line,
    serialize_line,
    PjLinkFramingError,
    PjLinkLine,
    PjLinkRawPayload,
};
use crate::wire::{PJLINK_COMMAND_SEPARATOR, PJLINK_QUERY};

verus! {

/// Parameter of the power command.
#[derive(Debug, Clone, Copy, PartialEq, Eq)]
pub enum PjLinkPowerCommandParameter {
    /// Switch the projector off: `%1POWR 0`.
    Off,
    /// Switch the projector on: `%1POWR 1`.
    On,
    /// Ask for the power status: `%1POWR ?`.
    Query,
    /// Any other parameter.
    Unknown,
}

/// Parameter of the input commands: an input kind with its number, a
/// query, or anything else.
#[derive(Debug, Clone, Copy, PartialEq, Eq)]
pub enum PjLinkInputCommandParameter {
    RGB(u8),
    Video(u8),
    Digital(u8),
    Storage(u8),
    Network(u8),
    Internal(u8),
    Query,
    Unknown,
}

/// Parameter of the mute command: the target with `true` for mute and
/// `false` for unmute, a query, or anything else.
#[derive(Debug, Clone, Copy, PartialEq, Eq)]
pub enum PjLinkMuteCommandParameter {
    Audio(bool),
    Video(bool),
    AudioAndVideo(bool),
    Query,
    Unknown,
}

/// Parameter of the volume adjustment commands.
#[derive(Debug, Clone, Copy, PartialEq, Eq)]
pub enum PjLinkVolumeCommandParameter {
    Increase,
    Decrase,
    Unknown,
}

/// Parameter of the freeze command.
#[derive(Debug, Clone, Copy, PartialEq, Eq)]
pub enum PjLinkFreezeCommandParameter {
    Freeze,
    Unfreeze,
    Query,
    Unknown,
}

/// Every command the protocol knows, with its decoded parameter. The
/// digit that ends a name is the class of the command.
#[derive(Debug, Clone, Copy, PartialEq, Eq)]
pub enum PjLinkCommand {
    Search2,
    Power1(PjLinkPowerCommandParameter),
    Input1(PjLinkInputCommandParameter),
    Input2(PjLinkInputCommandParameter),
    AvMute1(PjLinkMuteCommandParameter),
    ErrorStatus1,
    Lamp1,
    InputTogglingList1,
    InputTogglingList2,
    Name1,
    InfoManufacturer1,
    InfoProductName1,
    InfoOther1,
    Class1,
    SerialNumber2,
    SoftwareVersion2,
    InputTerminalName2(PjLinkInputCommandParameter),
    InputResolution2,
    RecommendResolution2,
    FilterUsageTime2,
    LampReplacementModelNumber2,
    FilterReplacementModelNumber2,
    SpeakerVolumeAdjustment2(PjLinkVolumeCommandParameter),
    MicrophoneVolumeAdjustment2(PjLinkVolumeCommandParameter),
    Freeze2(PjLinkFreezeCommandParameter),
    Unknown,
}

/// Status notifications of class 2, with the bytes that each carries.
#[derive(Debug, Clone, Copy, PartialEq, Eq)]
pub enum PjLinkStatusCommand {
    Acknowledge2([[u8; 2]; 6]),
    Lookup2([[u8; 2]; 6]),
    ErrorStatus2([u8; 6]),
    Power2(u8),
    Input2(u8, u8),
}

/// The five bytes of a command body: the class digit and the opcode.
pub open spec fn command_body(class: char, a: char, b: char, c: char, d: char) -> Seq<u8> {
    seq![class as u8, a as u8, b as u8, c as u8, d as u8]
}

/// Whether `value` may number an input: `1` to `9` in either class, and
/// also `A` to `Z` in class 2.
pub open spec fn input_value_accepted(is_class_2: bool, value: u8) -> bool {
    ||| '1' as u8 <= value <= '9' as u8
    ||| is_class_2 && 'A' as u8 <= value <= 'Z' as u8
}

/// The input that a kind byte and a value byte name. The kinds are `1`
/// RGB, `2` video, `3` digital, `4` storage, `5` network and, in class 2
/// only, `6` internal.
pub open spec fn input_of(is_class_2: bool, kind: u8, value: u8) -> PjLinkInputCommandParameter {
    if !input_value_accepted(is_class_2, value) {
        PjLinkInputCommandParameter::Unknown
    } else if kind == '1' as u8 {
        PjLinkInputCommandParameter::RGB(value)
    } else if kind == '2' as u8 {
        PjLinkInputCommandParameter::Video(value)
    } else if kind == '3' as u8 {
        PjLinkInputCommandParameter::Digital(value)
    } else if kind == '4' as u8 {
        PjLinkInputCommandParameter::Storage(value)
    } else if kind == '5' as u8 {
        PjLinkInputCommandParameter::Network(value)
    } else if kind == '6' as u8 && is_class_2 {
        PjLinkInputCommandParameter::Internal(value)
    } else {
        PjLinkInputCommandParameter::Unknown
    }
}

/// Parameter of a power command: decided by the first byte alone.
pub open spec fn power_parameter(parameter: Seq<u8>) -> PjLinkPowerCommandParameter {
    if parameter.len() == 0 {
        PjLinkPowerCommandParameter::Unknown
    } else if parameter[0] == '1' as u8 {
        PjLinkPowerCommandParameter::On
    } else if parameter[0] == '0' as u8 {
        PjLinkPowerCommandParameter::Off
    } else if parameter[0] == PJLINK_QUERY {
        PjLinkPowerCommandParameter::Query
    } else {
        PjLinkPowerCommandParameter::Unknown
    }
}

/// Parameter of an input switch command: `?` alone, or a kind and a value.
pub open spec fn input_parameter(is_class_2: bool, parameter: Seq<u8>)
    -> PjLinkInputCommandParameter {
    if parameter.len() == 1 && parameter[0] == PJLINK_QUERY {
        PjLinkInputCommandParameter::Query
    } else if parameter.len() == 2 {
        input_of(is_class_2, parameter[0], parameter[1])
    } else {
        PjLinkInputCommandParameter::Unknown
    }
}

/// Parameter of an input terminal name query: `?`, a kind and a value.
pub open spec fn input_name_parameter(parameter: Seq<u8>) -> PjLinkInputCommandParameter {
    if parameter.len() == 3 && parameter[0] == PJLINK_QUERY {
        input_of(true, parameter[1], parameter[2])
    } else {
        PjLinkInputCommandParameter::Unknown
    }
}

/// Parameter of a mute command: `?` alone, or a target (`1` video, `2`
/// audio, `3` both) and a flag (`1` mute, `0` unmute).
pub open spec fn mute_parameter(parameter: Seq<u8>) -> PjLinkMuteCommandParameter {
    if parameter.len() == 1 && parameter[0] == PJLINK_QUERY {
        PjLinkMuteCommandParameter::Query
    } else if parameter.len() == 2 && (parameter[1] == '1' as u8 || parameter[1] == '0' as u8) {
        let mute = parameter[1] == '1' as u8;
        if parameter[0] == '1' as u8 {
            PjLinkMuteCommandParameter::Video(mute)
        } else if parameter[0] == '2' as u8 {
            PjLinkMuteCommandParameter::Audio(mute)
        } else if parameter[0] == '3' as u8 {
            PjLinkMuteCommandParameter::AudioAndVideo(mute)
        } else {
            PjLinkMuteCommandParameter::Unknown
        }
    } else {
        PjLinkMuteCommandParameter::Unknown
    }
}

/// What a volume adjustment byte asks for.
pub open spec fn volume_parameter(value: u8) -> PjLinkVolumeCommandParameter {
    if value == '1' as u8 {
        PjLinkVolumeCommandParameter::Increase
    } else if value == '0' as u8 {
        PjLinkVolumeCommandParameter::Decrase
    } else {
        PjLinkVolumeCommandParameter::Unknown
    }
}

/// What a freeze byte asks for.
pub open spec fn freeze_parameter(value: u8) -> PjLinkFreezeCommandParameter {
    if value == PJLINK_QUERY {
        PjLinkFreezeCommandParameter::Query
    } else if value == '1' as u8 {
        PjLinkFreezeCommandParameter::Freeze
    } else if value == '0' as u8 {
        PjLinkFreezeCommandParameter::Unfreeze
    } else {
        PjLinkFreezeCommandParameter::Unknown
    }
}

/// The command that a body and a parameter stand for. The function is
/// total: whatever it does not recognise is `Unknown`. The separator of
/// the line plays no part.
pub open spec fn classify(body: Seq<u8>, parameter: Seq<u8>) -> PjLinkCommand {
    if body == command_body('1', 'P', 'O', 'W', 'R') {
        PjLinkCommand::Power1(power_parameter(parameter))
    } else if body == command_body('1', 'I', 'N', 'P', 'T') {
        PjLinkCommand::Input1(input_parameter(false, parameter))
    } else if body == command_body('2', 'I', 'N', 'P', 'T') {
        PjLinkCommand::Input2(input_parameter(true, parameter))
    } else if body == command_body('1', 'A', 'V', 'M', 'T') {
        PjLinkCommand::AvMute1(mute_parameter(parameter))
    } else if body == command_body('1', 'E', 'R', 'S', 'T') {
        PjLinkCommand::ErrorStatus1
    } else if body == command_body('1', 'L', 'A', 'M', 'P') {
        PjLinkCommand::Lamp1
    } else if body == command_body('1', 'I', 'N', 'S', 'T') {
        PjLinkCommand::InputTogglingList1
    } else if body == command_body('2', 'I', 'N', 'S', 'T') {
        PjLinkCommand::InputTogglingList2
    } else if body == command_body('1', 'N', 'A', 'M', 'E') {
        PjLinkCommand::Name1
    } else if body == command_body('1', 'I', 'N', 'F', '1') {
        PjLinkCommand::InfoManufacturer1
    } else if body == command_body('1', 'I', 'N', 'F', '2') {
        PjLinkCommand::InfoProductName1
    } else if body == command_body('1', 'I', 'N', 'F', 'O') {
        PjLinkCommand::InfoOther1
    } else if body == command_body('1', 'C', 'L', 'S', 'S') {
        PjLinkCommand::Class1
    } else if body == command_body('2', 'S', 'N', 'U', 'M') {
        PjLinkCommand::SerialNumber2
    } else if body == command_body('2', 'S', 'V', 'E', 'R') {
        PjLinkCommand::SoftwareVersion2
    } else if body == command_body('2', 'I', 'N', 'N', 'M') {
        PjLinkCommand::InputTerminalName2(input_name_parameter(parameter))
    } else if body == command_body('2', 'I', 'R', 'E', 'S') {
        PjLinkCommand::InputResolution2
    } else if body == command_body('2', 'R', 'R', 'E', 'S') {
        PjLinkCommand::RecommendResolution2
    } else if body == command_body('2', 'F', 'I', 'L', 'T') {
        PjLinkCommand::FilterUsageTime2
    } else if body == command_body('2', 'R', 'L', 'M', 'P') {
        PjLinkCommand::LampReplacementModelNumber2
    } else if body == command_body('2', 'R', 'F', 'I', 'L') {
        PjLinkCommand::FilterReplacementModelNumber2
    } else if body == command_body('2', 'S', 'V', 'O', 'L') {
        if parameter.len() == 1 {
            PjLinkCommand::SpeakerVolumeAdjustment2(volume_parameter(parameter[0]))
        } else {
            PjLinkCommand::Unknown
        }
    } else if body == command_body('2', 'M', 'V', 'O', 'L') {
        if parameter.len() == 1 {
            PjLinkCommand::MicrophoneVolumeAdjustment2(volume_parameter(parameter[0]))
        } else {
            PjLinkCommand::Unknown
        }
    } else if body == command_body('2', 'F', 'R', 'E', 'Z') {
        if parameter.len() == 1 {
            PjLinkCommand::Freeze2(freeze_parameter(parameter[0]))
        } else {
            PjLinkCommand::Unknown
        }
    } else {
        PjLinkCommand::Unknown
    }
}

/// Whether the four opcode bytes of `body` are `a`, `b`, `c` and `d`.
fn opcode_is(body: &[u8; 5], a: char, b: char, c: char, d: char) -> (same: bool)
    ensures
        same == (body@[1] == a as u8 && body@[2] == b as u8 && body@[3] == c as u8 && body@[4]
            == d as u8),
{
    body[1] == a as u8 && body[2] == b as u8 && body[3] == c as u8 && body[4] == d as u8
}

impl PjLinkCommand {
    /// Classifies a raw payload. The answer depends on the command body
    /// and on the transmission parameter only.
    pub fn from_raw_payload(raw_command: &PjLinkRawPayload) -> (command: PjLinkCommand)
        ensures
            command == classify(raw_command@.body, raw_command@.parameter),
    {
        let transmission_parameter = &raw_command.transmission_parameter;
        let body = &raw_command.command_body_with_class;
        let class = body[0];
        let is_class_1 = class == '1' as u8;
        let is_class_2 = class == '2' as u8;
        let transmission_parameter_len = transmission_parameter.len();
        proof {
            lemma_body_bytes(body@);
        }
        if is_class_1 && opcode_is(body, 'P', 'O', 'W', 'R') {
            let parameter = if transmission_parameter_len == 0 {
                PjLinkPowerCommandParameter::Unknown
            } else if transmission_parameter[0] == '1' as u8 {
                PjLinkPowerCommandParameter::On
            } else if transmission_parameter[0] == '0' as u8 {
                PjLinkPowerCommandParameter::Off
            } else if transmission_parameter[0] == PJLINK_QUERY {
                PjLinkPowerCommandParameter::Query
            } else {
                PjLinkPowerCommandParameter::Unknown
            };
            PjLinkCommand::Power1(parameter)
        } else if (is_class_1 || is_class_2) && opcode_is(body, 'I', 'N', 'P', 'T') {
            let parameter = if transmission_parameter_len == 1 && transmission_parameter[0]
                == PJLINK_QUERY {
                PjLinkInputCommandParameter::Query
            } else if transmission_parameter_len == 2 {
                Self::input_param_parse(
                    is_class_2,
                    transmission_parameter[0],
                    transmission_parameter[1],
                )
            } else {
                PjLinkInputCommandParameter::Unknown
            };
            if is_class_2 {
                PjLinkCommand::Input2(parameter)
            } else {
                PjLinkCommand::Input1(parameter)
            }
        } else if is_class_1 && opcode_is(body, 'A', 'V', 'M', 'T') {
            let parameter = if transmission_parameter_len == 1 && transmission_parameter[0]
                == PJLINK_QUERY {
                PjLinkMuteCommandParameter::Query
            } else if transmission_parameter_len == 2 {
                let target = transmission_parameter[0];
                let flag = transmission_parameter[1];
                let mute = flag == '1' as u8;
                if !mute && flag != '0' as u8 {
                    PjLinkMuteCommandParameter::Unknown
                } else if target == '1' as u8 {
                    PjLinkMuteCommandParameter::Video(mute)
                } else if target == '2' as u8 {
                    PjLinkMuteCommandParameter::Audio(mute)
                } else if target == '3' as u8 {
                    PjLinkMuteCommandParameter::AudioAndVideo(mute)
                } else {
                    PjLinkMuteCommandParameter::Unknown
                }
            } else {
                PjLinkMuteCommandParameter::Unknown
            };
            PjLinkCommand::AvMute1(parameter)
        } else if is_class_1 && opcode_is(body, 'E', 'R', 'S', 'T') {
            PjLinkCommand::ErrorStatus1
        } else if is_class_1 && opcode_is(body, 'L', 'A', 'M', 'P') {
            PjLinkCommand::Lamp1
        } else if (is_class_1 || is_class_2) && opcode_is(body, 'I', 'N', 'S', 'T') {
            if is_class_2 {
                PjLinkCommand::InputTogglingList2
            } else {
                PjLinkCommand::InputTogglingList1
            }
        } else if is_class_1 && opcode_is(body, 'N', 'A', 'M', 'E') {
            PjLinkCommand::Name1
        } else if is_class_1 && opcode_is(body, 'I', 'N', 'F', '1') {
            PjLinkCommand::InfoManufacturer1
        } else if is_class_1 && opcode_is(body, 'I', 'N', 'F', '2') {
            PjLinkCommand::InfoProductName1
        } else if is_class_1 && opcode_is(body, 'I', 'N', 'F', 'O') {
            PjLinkCommand::InfoOther1
        } else if is_class_1 && opcode_is(body, 'C', 'L', 'S', 'S') {
            PjLinkCommand::Class1
        } else if is_class_2 && opcode_is(body, 'S', 'N', 'U', 'M') {
            PjLinkCommand::SerialNumber2
        } else if is_class_2 && opcode_is(body, 'S', 'V', 'E', 'R') {
            PjLinkCommand::SoftwareVersion2
        } else if is_class_2 && opcode_is(body, 'I', 'N', 'N', 'M') {
            let parameter = if transmission_parameter_len == 3 && transmission_parameter[0]
                == PJLINK_QUERY {
                Self::input_param_parse(true, transmission_parameter[1], transmission_parameter[2])
            } else {
                PjLinkInputCommandParameter::Unknown
            };
            PjLinkCommand::InputTerminalName2(parameter)
        } else if is_class_2 && opcode_is(body, 'I', 'R', 'E', 'S') {
            PjLinkCommand::InputResolution2
        } else if is_class_2 && opcode_is(body, 'R', 'R', 'E', 'S') {
            PjLinkCommand::RecommendResolution2
        } else if is_class_2 && opcode_is(body, 'F', 'I', 'L', 'T') {
            PjLinkCommand::FilterUsageTime2
        } else if is_class_2 && opcode_is(body, 'R', 'L', 'M', 'P') {
            PjLinkCommand::LampReplacementModelNumber2
        } else if is_class_2 && opcode_is(body, 'R', 'F', 'I', 'L') {
            PjLinkCommand::FilterReplacementModelNumber2
        } else if is_class_2 && opcode_is(body, 'S', 'V', 'O', 'L') {
            if transmission_parameter_len == 1 {
                PjLinkCommand::SpeakerVolumeAdjustment2(
                    Self::volume_param_parse(transmission_parameter[0]),
                )
            } else {
                PjLinkCommand::Unknown
            }
        } else if is_class_2 && opcode_is(body, 'M', 'V', 'O', 'L') {
            if transmission_parameter_len == 1 {
                PjLinkCommand::MicrophoneVolumeAdjustment2(
                    Self::volume_param_parse(transmission_parameter[0]),
                )
            } else {
                PjLinkCommand::Unknown
            }
        } else if is_class_2 && opcode_is(body, 'F', 'R', 'E', 'Z') {
            if transmission_parameter_len == 1 {
                let value = transmission_parameter[0];
                PjLinkCommand::Freeze2(
                    if value == PJLINK_QUERY {
                        PjLinkFreezeCommandParameter::Query
                    } else if value == '1' as u8 {
                        PjLinkFreezeCommandParameter::Freeze
                    } else if value == '0' as u8 {
                        PjLinkFreezeCommandParameter::Unfreeze
                    } else {
                        PjLinkFreezeCommandParameter::Unknown
                    },
                )
            } else {
                PjLinkCommand::Unknown
            }
        } else {
            PjLinkCommand::Unknown
        }
    }

    /// Decodes the kind byte and the value byte of an input parameter.
    pub fn input_param_parse(is_class_2: bool, input_char: u8, input_value: u8) -> (parameter:
        PjLinkInputCommandParameter)
        ensures
            parameter == input_of(is_class_2, input_char, input_value),
    {
        let is_invalid_below = input_value < '1' as u8;
        let is_class_1_invalid_higher = !is_class_2 && input_value > '9' as u8;
        let is_class_2_invalid_higher = is_class_2 && ((input_value > '9' as u8 && input_value
            < 'A' as u8) || input_value > 'Z' as u8);
        if is_invalid_below || is_class_1_invalid_higher || is_class_2_invalid_higher {
            PjLinkInputCommandParameter::Unknown
        } else if input_char == '1' as u8 {
            PjLinkInputCommandParameter::RGB(input_value)
        } else if input_char == '2' as u8 {
            PjLinkInputCommandParameter::Video(input_value)
        } else if input_char == '3' as u8 {
            PjLinkInputCommandParameter::Digital(input_value)
        } else if input_char == '4' as u8 {
            PjLinkInputCommandParameter::Storage(input_value)
        } else if input_char == '5' as u8 {
            PjLinkInputCommandParameter::Network(input_value)
        } else if input_char == '6' as u8 && is_class_2 {
            PjLinkInputCommandParameter::Internal(input_value)
        } else {
            PjLinkInputCommandParameter::Unknown
        }
    }

    /// Decodes the byte of a volume adjustment.
    fn volume_param_parse(value: u8) -> (parameter: PjLinkVolumeCommandParameter)
        ensures
            parameter == volume_parameter(value),
    {
        if value == '1' as u8 {
            PjLinkVolumeCommandParameter::Increase
        } else if value == '0' as u8 {
            PjLinkVolumeCommandParameter::Decrase
        } else {
            PjLinkVolumeCommandParameter::Unknown
        }
    }
}

/// The parameter that asks for an input.
pub open spec fn input_request(input: PjLinkInputCommandParameter) -> Seq<u8> {
    match input {
        PjLinkInputCommandParameter::RGB(value) => seq!['1' as u8, value],
        PjLinkInputCommandParameter::Video(value) => seq!['2' as u8, value],
        PjLinkInputCommandParameter::Digital(value) => seq!['3' as u8, value],
        PjLinkInputCommandParameter::Storage(value) => seq!['4' as u8, value],
        PjLinkInputCommandParameter::Network(value) => seq!['5' as u8, value],
        PjLinkInputCommandParameter::Internal(value) => seq!['6' as u8, value],
        PjLinkInputCommandParameter::Query => seq![PJLINK_QUERY],
        PjLinkInputCommandParameter::Unknown => Seq::empty(),
    }
}

/// Whether an input can be asked for in a class: it names a kind that
/// the class has, with a number that the class accepts.
pub open spec fn input_is_askable(is_class_2: bool, input: PjLinkInputCommandParameter) -> bool {
    match input {
        PjLinkInputCommandParameter::RGB(value) => input_value_accepted(is_class_2, value),
        PjLinkInputCommandParameter::Video(value) => input_value_accepted(is_class_2, value),
        PjLinkInputCommandParameter::Digital(value) => input_value_accepted(is_class_2, value),
        PjLinkInputCommandParameter::Storage(value) => input_value_accepted(is_class_2, value),
        PjLinkInputCommandParameter::Network(value) => input_value_accepted(is_class_2, value),
        PjLinkInputCommandParameter::Internal(value) => is_class_2 && input_value_accepted(
            is_class_2,
            value,
        ),
        PjLinkInputCommandParameter::Query => false,
        PjLinkInputCommandParameter::Unknown => false,
    }
}

/// The flag byte of a mute or an unmute.
pub open spec fn mute_flag_byte(mute: bool) -> u8 {
    if mute {
        '1' as u8
    } else {
        '0' as u8
    }
}

/// Whether a request line stands for the command: the command is one
/// that the classifier gives, and none of its parameters is `Unknown` or
/// out of its range.
pub open spec fn is_askable(command: PjLinkCommand) -> bool {
    match command {
        PjLinkCommand::Search2 => false,
        PjLinkCommand::Power1(parameter) => !(parameter is Unknown),
        PjLinkCommand::Input1(input) => input is Query || input_is_askable(false, input),
        PjLinkCommand::Input2(input) => input is Query || input_is_askable(true, input),
        PjLinkCommand::AvMute1(parameter) => !(parameter is Unknown),
        PjLinkCommand::InputTerminalName2(input) => input_is_askable(true, input),
        PjLinkCommand::SpeakerVolumeAdjustment2(parameter) => !(parameter is Unknown),
        PjLinkCommand::MicrophoneVolumeAdjustment2(parameter) => !(parameter is Unknown),
        PjLinkCommand::Freeze2(parameter) => !(parameter is Unknown),
        PjLinkCommand::Unknown => false,
        _ => true,
    }
}

/// The command body of the request that asks for a command.
pub open spec fn request_body(command: PjLinkCommand) -> Seq<u8> {
    match command {
        PjLinkCommand::Search2 => command_body('2', 'S', 'R', 'C', 'H'),
        PjLinkCommand::Power1(_) => command_body('1', 'P', 'O', 'W', 'R'),
        PjLinkCommand::Input1(_) => command_body('1', 'I', 'N', 'P', 'T'),
        PjLinkCommand::Input2(_) => command_body('2', 'I', 'N', 'P', 'T'),
        PjLinkCommand::AvMute1(_) => command_body('1', 'A', 'V', 'M', 'T'),
        PjLinkCommand::ErrorStatus1 => command_body('1', 'E', 'R', 'S', 'T'),
        PjLinkCommand::Lamp1 => command_body('1', 'L', 'A', 'M', 'P'),
        PjLinkCommand::InputTogglingList1 => command_body('1', 'I', 'N', 'S', 'T'),
        PjLinkCommand::InputTogglingList2 => command_body('2', 'I', 'N', 'S', 'T'),
        PjLinkCommand::Name1 => command_body('1', 'N', 'A', 'M', 'E'),
        PjLinkCommand::InfoManufacturer1 => command_body('1', 'I', 'N', 'F', '1'),
        PjLinkCommand::InfoProductName1 => command_body('1', 'I', 'N', 'F', '2'),
        PjLinkCommand::InfoOther1 => command_body('1', 'I', 'N', 'F', 'O'),
        PjLinkCommand::Class1 => command_body('1', 'C', 'L', 'S', 'S'),
        PjLinkCommand::SerialNumber2 => command_body('2', 'S', 'N', 'U', 'M'),
        PjLinkCommand::SoftwareVersion2 => command_body('2', 'S', 'V', 'E', 'R'),
        PjLinkCommand::InputTerminalName2(_) => command_body('2', 'I', 'N', 'N', 'M'),
        PjLinkCommand::InputResolution2 => command_body('2', 'I', 'R', 'E', 'S'),
        PjLinkCommand::RecommendResolution2 => command_body('2', 'R', 'R', 'E', 'S'),
        PjLinkCommand::FilterUsageTime2 => command_body('2', 'F', 'I', 'L', 'T'),
        PjLinkCommand::LampReplacementModelNumber2 => command_body('2', 'R', 'L', 'M', 'P'),
        PjLinkCommand::FilterReplacementModelNumber2 => command_body('2', 'R', 'F', 'I', 'L'),
        PjLinkCommand::SpeakerVolumeAdjustment2(_) => command_body('2', 'S', 'V', 'O', 'L'),
        PjLinkCommand::MicrophoneVolumeAdjustment2(_) => command_body('2', 'M', 'V', 'O', 'L'),
        PjLinkCommand::Freeze2(_) => command_body('2', 'F', 'R', 'E', 'Z'),
        PjLinkCommand::Unknown => Seq::empty(),
    }
}

/// The transmission parameter of the request that asks for a command. A
/// command without parameter is asked for with `?`.
pub open spec fn request_parameter(command: PjLinkCommand) -> Seq<u8> {
    match command {
        PjLinkCommand::Power1(parameter) => match parameter {
            PjLinkPowerCommandParameter::On => seq!['1' as u8],
            PjLinkPowerCommandParameter::Off => seq!['0' as u8],
            PjLinkPowerCommandParameter::Query => seq![PJLINK_QUERY],
            PjLinkPowerCommandParameter::Unknown => Seq::empty(),
        },
        PjLinkCommand::Input1(input) => input_request(input),
        PjLinkCommand::Input2(input) => input_request(input),
        PjLinkCommand::AvMute1(parameter) => match parameter {
            PjLinkMuteCommandParameter::Video(mute) => seq!['1' as u8, mute_flag_byte(mute)],
            PjLinkMuteCommandParameter::Audio(mute) => seq!['2' as u8, mute_flag_byte(mute)],
            PjLinkMuteCommandParameter::AudioAndVideo(mute) => seq![
                '3' as u8,
                mute_flag_byte(mute),
            ],
            PjLinkMuteCommandParameter::Query => seq![PJLINK_QUERY],
            PjLinkMuteCommandParameter::Unknown => Seq::empty(),
        },
        PjLinkCommand::InputTerminalName2(input) => seq![PJLINK_QUERY] + input_request(input),
        PjLinkCommand::SpeakerVolumeAdjustment2(parameter)
        | PjLinkCommand::MicrophoneVolumeAdjustment2(parameter) => match parameter {
            PjLinkVolumeCommandParameter::Increase => seq!['1' as u8],
            PjLinkVolumeCommandParameter::Decrase => seq!['0' as u8],
            PjLinkVolumeCommandParameter::Unknown => Seq::empty(),
        },
        PjLinkCommand::Freeze2(parameter) => match parameter {
            PjLinkFreezeCommandParameter::Freeze => seq!['1' as u8],
            PjLinkFreezeCommandParameter::Unfreeze => seq!['0' as u8],
            PjLinkFreezeCommandParameter::Query => seq![PJLINK_QUERY],
            PjLinkFreezeCommandParameter::Unknown => Seq::empty(),
        },
        _ => seq![PJLINK_QUERY],
    }
}

/// The request line that asks for a command.
pub open spec fn request_line(command: PjLinkCommand) -> PjLinkLine {
    PjLinkLine {
        body: request_body(command),
        separator: PJLINK_COMMAND_SEPARATOR,
        parameter: request_parameter(command),
    }
}

/// A body of five bytes is the body of given characters exactly when it
/// holds them byte for byte.
proof fn lemma_body_bytes(body: Seq<u8>)
    requires
        body.len() == 5,
    ensures
        forall|class: char, a: char, b: char, c: char, d: char|
            (#[trigger] command_body(class, a, b, c, d) == body) <==> (body[0] == class as u8
                && body[1] == a as u8 && body[2] == b as u8 && body[3] == c as u8 && body[4]
                == d as u8),
{
    assert forall|class: char, a: char, b: char, c: char, d: char|
        (#[trigger] command_body(class, a, b, c, d) == body) <==> (body[0] == class as u8
            && body[1] == a as u8 && body[2] == b as u8 && body[3] == c as u8 && body[4]
            == d as u8) by {
        let whole = command_body(class, a, b, c, d);
        if body[0] == class as u8 && body[1] == a as u8 && body[2] == b as u8 && body[3]
            == c as u8 && body[4] == d as u8 {
            assert(whole =~= body);
        }
    }
}

/// The classifier reads the request of a command back as the command.
pub proof fn lemma_classify_inverts_request(command: PjLinkCommand)
    requires
        is_askable(command),
    ensures
        classify(request_body(command), request_parameter(command)) == command,
{
    lemma_body_bytes(request_body(command));
}

/// A command that is written as a request, sent over the wire, parsed and
/// classified comes back as it was.
pub proof fn lemma_request_round_trip(command: PjLinkCommand)
    requires
        is_askable(command),
    ensures
        parse_line(serialize_line(request_line(command)).drop_last()) == Ok::<
            PjLinkLine,
            PjLinkFramingError,
        >(request_line(command)),
        classify(request_line(command).body, request_line(command).parameter) == command,
{
    lemma_classify_inverts_request(command);
    crate::payload::lemma_parse_inverts_serialize(request_line(command));
    let parameter = request_parameter(command);
    assert(!(parameter.len() > 0 && parameter.last() == 0)) by {
        if parameter.len() > 0 {
            assert(parameter.last() == parameter[parameter.len() - 1]);
        }
    }
}

} // verus!
