//! A mock projector: a handler that keeps the state of a projector in
//! memory and answers every command of both classes from it.

use vstd::prelude::*;
use crate::command::{
    PjLinkCommand,
    PjLinkFreezeCommandParameter,
    PjLinkInputCommandParameter,
    PjLinkMuteCommandParameter,
    PjLinkPowerCommandParameter,
    PjLinkVolumeCommandParameter,
};
use crate::handler::PjLinkHandler;
use crate::payload::PjLinkRawPayload;
use crate::response::{PjLinkResponse, PjLinkResponseView};
use crate::wire::{
    PjLinkErrorStatusCommandStatusItem,
    PjLinkFreezeCommandStatus,
    PjLinkInputCommandStatus,
    PjLinkMuteCommandStatus,
    PjLinkPowerCommandStatus,
};

verus! {

/// What a mock projector is told when it is made. None of it changes
/// afterwards.
pub struct PjLinkMockProjectorOptions {
    /// The password that sessions authenticate with, if any.
    pub password: Option<String>,
    /// The class that the projector answers a class query with.
    pub class_type: u8,
    pub manufacturer_name: Vec<u8>,
    pub product_name: Vec<u8>,
    pub projector_name: Vec<u8>,
    pub serial_number: Vec<u8>,
    pub software_version: Vec<u8>,
    pub screen_resolution: Vec<u8>,
    pub recommended_screen_resolution: Vec<u8>,
}

/// What a mock projector remembers between commands.
pub struct PjLinkMockProjectorState {
    /// Power status code.
    pub power_on: u8,
    pub error_fan_status: u8,
    pub error_lamp_status: u8,
    pub error_temperature_status: u8,
    pub error_cover_open_status: u8,
    pub error_filter_status: u8,
    pub error_other_status: u8,
    /// Lighting hours of the lamp, as decimal text.
    pub lamp_hours: Vec<u8>,
    /// Usage time of the filter, as decimal text.
    pub filter_hours: Vec<u8>,
    /// Target of the mute status.
    pub mute_target: u8,
    /// Flag of the mute status.
    pub mute_flag: u8,
    /// Kind of the input that is shown.
    pub input_kind: u8,
    /// Number of the input that is shown.
    pub input_value: u8,
    /// The inputs that can be switched to, as the toggling list gives them.
    pub available_inputs: Vec<u8>,
    /// Freeze status code.
    pub freeze_status: u8,
}

/// A projector that exists in memory only.
pub struct PjLinkMockProjector {
    pub options: PjLinkMockProjectorOptions,
    pub state: PjLinkMockProjectorState,
}

/// The kind code and the number of an input, where the parameter names
/// an input.
pub open spec fn input_codes(input: PjLinkInputCommandParameter) -> Option<(u8, u8)> {
    match input {
        PjLinkInputCommandParameter::RGB(value) => Some((PjLinkInputCommandStatus::RGB, value)),
        PjLinkInputCommandParameter::Video(value) => Some((PjLinkInputCommandStatus::Video, value)),
        PjLinkInputCommandParameter::Digital(value) => Some(
            (PjLinkInputCommandStatus::Digital, value),
        ),
        PjLinkInputCommandParameter::Storage(value) => Some(
            (PjLinkInputCommandStatus::Storage, value),
        ),
        PjLinkInputCommandParameter::Network(value) => Some(
            (PjLinkInputCommandStatus::Network, value),
        ),
        PjLinkInputCommandParameter::Internal(value) => Some(
            (PjLinkInputCommandStatus::Internal, value),
        ),
        PjLinkInputCommandParameter::Query => None,
        PjLinkInputCommandParameter::Unknown => None,
    }
}

/// The name of the terminal of an input: a word for its kind, and its
/// number.
pub open spec fn terminal_name(input: PjLinkInputCommandParameter) -> Option<Seq<u8>> {
    match input {
        PjLinkInputCommandParameter::RGB(value) => Some(
            seq!['V' as u8, 'G' as u8, 'A' as u8, value],
        ),
        PjLinkInputCommandParameter::Video(value) => Some(
            seq!['A' as u8, 'n' as u8, 'a' as u8, 'l' as u8, 'o' as u8, 'g' as u8, value],
        ),
        PjLinkInputCommandParameter::Digital(value) => Some(
            seq!['H' as u8, 'D' as u8, 'M' as u8, 'I' as u8, value],
        ),
        PjLinkInputCommandParameter::Storage(value) => Some(
            seq![
                'S' as u8,
                't' as u8,
                'o' as u8,
                'r' as u8,
                'a' as u8,
                'g' as u8,
                'e' as u8,
                value,
            ],
        ),
        PjLinkInputCommandParameter::Network(value) => Some(
            seq![
                'N' as u8,
                'e' as u8,
                't' as u8,
                'w' as u8,
                'o' as u8,
                'r' as u8,
                'k' as u8,
                value,
            ],
        ),
        PjLinkInputCommandParameter::Internal(value) => Some(
            seq![
                'I' as u8,
                'n' as u8,
                't' as u8,
                'e' as u8,
                'r' as u8,
                'n' as u8,
                'a' as u8,
                'l' as u8,
                value,
            ],
        ),
        PjLinkInputCommandParameter::Query => None,
        PjLinkInputCommandParameter::Unknown => None,
    }
}

/// The flag code of a mute or an unmute.
pub open spec fn mute_flag_of(mute: bool) -> u8 {
    if mute {
        PjLinkMuteCommandStatus::Mute
    } else {
        PjLinkMuteCommandStatus::NonMute
    }
}

/// The mute status after one of two single targets is set: `own` is the
/// code of the target that is set and `other` the code of the other one.
/// Muting one target while the other is muted mutes both; unmuting one
/// while both are muted leaves the other muted; in every other case the
/// target of the status stays and the flag follows the command.
pub open spec fn mute_after_single(target: u8, flag: u8, own: u8, other: u8, mute: bool) -> (
    u8,
    u8,
) {
    let is_muted = flag == PjLinkMuteCommandStatus::Mute;
    if target == other && is_muted && mute {
        (PjLinkMuteCommandStatus::AudioAndVideo, PjLinkMuteCommandStatus::Mute)
    } else if target == PjLinkMuteCommandStatus::AudioAndVideo && is_muted && !mute {
        (other, PjLinkMuteCommandStatus::Mute)
    } else {
        (target, mute_flag_of(mute))
    }
}

/// The mute status after a mute command, where the command sets one.
pub open spec fn mute_after(target: u8, flag: u8, parameter: PjLinkMuteCommandParameter)
    -> Option<(u8, u8)> {
    match parameter {
        PjLinkMuteCommandParameter::Audio(mute) => Some(
            mute_after_single(
                target,
                flag,
                PjLinkMuteCommandStatus::Audio,
                PjLinkMuteCommandStatus::Video,
                mute,
            ),
        ),
        PjLinkMuteCommandParameter::Video(mute) => Some(
            mute_after_single(
                target,
                flag,
                PjLinkMuteCommandStatus::Video,
                PjLinkMuteCommandStatus::Audio,
                mute,
            ),
        ),
        PjLinkMuteCommandParameter::AudioAndVideo(mute) => Some(
            (PjLinkMuteCommandStatus::AudioAndVideo, mute_flag_of(mute)),
        ),
        PjLinkMuteCommandParameter::Query => None,
        PjLinkMuteCommandParameter::Unknown => None,
    }
}

/// What the projector remembers after a command. Only power, input,
/// mute and freeze commands with a parameter that sets something change
/// it.
pub open spec fn state_after(state: PjLinkMockProjectorState, command: PjLinkCommand)
    -> PjLinkMockProjectorState {
    match command {
        PjLinkCommand::Power1(PjLinkPowerCommandParameter::On) => PjLinkMockProjectorState {
            power_on: PjLinkPowerCommandStatus::On,
            ..state
        },
        PjLinkCommand::Power1(PjLinkPowerCommandParameter::Off) => PjLinkMockProjectorState {
            power_on: PjLinkPowerCommandStatus::Off,
            ..state
        },
        PjLinkCommand::Input1(input) | PjLinkCommand::Input2(input) => match input_codes(input) {
            Some(codes) => PjLinkMockProjectorState {
                input_kind: codes.0,
                input_value: codes.1,
                ..state
            },
            None => state,
        },
        PjLinkCommand::AvMute1(parameter) => match mute_after(
            state.mute_target,
            state.mute_flag,
            parameter,
        ) {
            Some(status) => PjLinkMockProjectorState {
                mute_target: status.0,
                mute_flag: status.1,
                ..state
            },
            None => state,
        },
        PjLinkCommand::Freeze2(PjLinkFreezeCommandParameter::Freeze) => PjLinkMockProjectorState {
            freeze_status: PjLinkFreezeCommandStatus::Freezed,
            ..state
        },
        PjLinkCommand::Freeze2(PjLinkFreezeCommandParameter::Unfreeze) => PjLinkMockProjectorState {
            freeze_status: PjLinkFreezeCommandStatus::Unfreezed,
            ..state
        },
        _ => state,
    }
}

/// What the projector answers to a command, from what it was told and
/// what it remembers before the command. A command that sets something
/// is answered with `OK`, a query with the value asked for, a parameter
/// that names nothing with "out of parameter", and a command that the
/// classifier did not know with "undefined".
pub open spec fn answer_to(
    options: PjLinkMockProjectorOptions,
    state: PjLinkMockProjectorState,
    command: PjLinkCommand,
) -> PjLinkResponseView {
    match command {
        PjLinkCommand::Power1(PjLinkPowerCommandParameter::Query) => PjLinkResponseView::Single(
            state.power_on,
        ),
        PjLinkCommand::Power1(PjLinkPowerCommandParameter::On) => PjLinkResponseView::Okay,
        PjLinkCommand::Power1(PjLinkPowerCommandParameter::Off) => PjLinkResponseView::Okay,
        PjLinkCommand::Power1(PjLinkPowerCommandParameter::Unknown) =>
            PjLinkResponseView::OutOfParameter,
        PjLinkCommand::Input1(input) | PjLinkCommand::Input2(input) => if input
            is Query {
            PjLinkResponseView::Multiple(seq![state.input_kind, state.input_value])
        } else if input_codes(input) is Some {
            PjLinkResponseView::Okay
        } else {
            PjLinkResponseView::OutOfParameter
        },
        PjLinkCommand::AvMute1(parameter) => if parameter is Query {
            PjLinkResponseView::Multiple(seq![state.mute_target, state.mute_flag])
        } else if mute_after(state.mute_target, state.mute_flag, parameter) is Some {
            PjLinkResponseView::Okay
        } else {
            PjLinkResponseView::OutOfParameter
        },
        PjLinkCommand::ErrorStatus1 => PjLinkResponseView::Multiple(
            seq![
                state.error_fan_status,
                state.error_lamp_status,
                state.error_temperature_status,
                state.error_cover_open_status,
                state.error_filter_status,
                state.error_other_status,
            ],
        ),
        PjLinkCommand::Lamp1 => PjLinkResponseView::Multiple(
            state.lamp_hours@ + seq![' ' as u8, state.power_on],
        ),
        PjLinkCommand::InputTogglingList1 | PjLinkCommand::InputTogglingList2 =>
            PjLinkResponseView::Multiple(state.available_inputs@),
        PjLinkCommand::Name1 => PjLinkResponseView::Multiple(options.projector_name@),
        PjLinkCommand::InfoManufacturer1 => PjLinkResponseView::Multiple(
            options.manufacturer_name@,
        ),
        PjLinkCommand::InfoProductName1 => PjLinkResponseView::Multiple(options.product_name@),
        PjLinkCommand::InfoOther1 => PjLinkResponseView::Multiple(Seq::empty()),
        PjLinkCommand::Class1 => PjLinkResponseView::Single(options.class_type),
        PjLinkCommand::SerialNumber2 => PjLinkResponseView::Multiple(options.serial_number@),
        PjLinkCommand::SoftwareVersion2 => PjLinkResponseView::Multiple(options.software_version@),
        PjLinkCommand::InputTerminalName2(input) => match terminal_name(input) {
            Some(name) => PjLinkResponseView::Multiple(name),
            None => PjLinkResponseView::OutOfParameter,
        },
        PjLinkCommand::InputResolution2 => PjLinkResponseView::Multiple(
            options.screen_resolution@,
        ),
        PjLinkCommand::RecommendResolution2 => PjLinkResponseView::Multiple(
            options.recommended_screen_resolution@,
        ),
        PjLinkCommand::FilterUsageTime2 => PjLinkResponseView::Multiple(state.filter_hours@),
        PjLinkCommand::LampReplacementModelNumber2 => PjLinkResponseView::Empty,
        PjLinkCommand::FilterReplacementModelNumber2 => PjLinkResponseView::Empty,
        PjLinkCommand::SpeakerVolumeAdjustment2(parameter)
        | PjLinkCommand::MicrophoneVolumeAdjustment2(parameter) => if parameter is Unknown {
            PjLinkResponseView::OutOfParameter
        } else {
            PjLinkResponseView::Okay
        },
        PjLinkCommand::Freeze2(PjLinkFreezeCommandParameter::Query) => PjLinkResponseView::Single(
            state.freeze_status,
        ),
        PjLinkCommand::Freeze2(PjLinkFreezeCommandParameter::Freeze) => PjLinkResponseView::Okay,
        PjLinkCommand::Freeze2(PjLinkFreezeCommandParameter::Unfreeze) => PjLinkResponseView::Okay,
        PjLinkCommand::Freeze2(PjLinkFreezeCommandParameter::Unknown) =>
            PjLinkResponseView::OutOfParameter,
        PjLinkCommand::Search2 => PjLinkResponseView::OutOfParameter,
        PjLinkCommand::Unknown => PjLinkResponseView::Undefined,
    }
}

/// A copy of a byte string.
fn copy_of(bytes: &Vec<u8>) -> (copy: Vec<u8>)
    ensures
        copy@ == bytes@,
{
    vstd::slice::slice_to_vec(bytes.as_slice())
}

impl PjLinkMockProjector {
    /// A projector that is switched off and shows its first RGB input,
    /// with nothing muted or frozen and no error.
    pub fn new(options: PjLinkMockProjectorOptions) -> (projector: PjLinkMockProjector)
        ensures
            projector.options == options,
            projector.state.power_on == PjLinkPowerCommandStatus::Off,
            projector.state.error_fan_status == PjLinkErrorStatusCommandStatusItem::Normal,
            projector.state.error_lamp_status == PjLinkErrorStatusCommandStatusItem::Normal,
            projector.state.error_temperature_status == PjLinkErrorStatusCommandStatusItem::Normal,
            projector.state.error_cover_open_status == PjLinkErrorStatusCommandStatusItem::Normal,
            projector.state.error_filter_status == PjLinkErrorStatusCommandStatusItem::Normal,
            projector.state.error_other_status == PjLinkErrorStatusCommandStatusItem::Normal,
            projector.state.lamp_hours@ == seq!['1' as u8, '2' as u8, '0' as u8],
            projector.state.filter_hours@ == seq!['0' as u8],
            projector.state.mute_target == PjLinkMuteCommandStatus::AudioAndVideo,
            projector.state.mute_flag == PjLinkMuteCommandStatus::NonMute,
            projector.state.input_kind == PjLinkInputCommandStatus::RGB,
            projector.state.input_value == '1' as u8,
            projector.state.available_inputs@ == seq![
                '1' as u8,
                '1' as u8,
                ' ' as u8,
                '1' as u8,
                '2' as u8,
                ' ' as u8,
                '3' as u8,
                '1' as u8,
                ' ' as u8,
                '4' as u8,
                '1' as u8,
            ],
            projector.state.freeze_status == PjLinkFreezeCommandStatus::Unfreezed,
    {
        let lamp_hours = vec!['1' as u8, '2' as u8, '0' as u8];
        let filter_hours = vec!['0' as u8];
        let available_inputs = vec![
            PjLinkInputCommandStatus::RGB,
            '1' as u8,
            ' ' as u8,
            PjLinkInputCommandStatus::RGB,
            '2' as u8,
            ' ' as u8,
            PjLinkInputCommandStatus::Digital,
            '1' as u8,
            ' ' as u8,
            PjLinkInputCommandStatus::Storage,
            '1' as u8,
        ];
        PjLinkMockProjector {
            options,
            state: PjLinkMockProjectorState {
                power_on: PjLinkPowerCommandStatus::Off,
                error_fan_status: PjLinkErrorStatusCommandStatusItem::Normal,
                error_lamp_status: PjLinkErrorStatusCommandStatusItem::Normal,
                error_temperature_status: PjLinkErrorStatusCommandStatusItem::Normal,
                error_cover_open_status: PjLinkErrorStatusCommandStatusItem::Normal,
                error_filter_status: PjLinkErrorStatusCommandStatusItem::Normal,
                error_other_status: PjLinkErrorStatusCommandStatusItem::Normal,
                lamp_hours,
                filter_hours,
                mute_target: PjLinkMuteCommandStatus::AudioAndVideo,
                mute_flag: PjLinkMuteCommandStatus::NonMute,
                input_kind: PjLinkInputCommandStatus::RGB,
                input_value: '1' as u8,
                available_inputs,
                freeze_status: PjLinkFreezeCommandStatus::Unfreezed,
            },
        }
    }

    /// The name of the terminal of an input.
    fn terminal_name_of(input: PjLinkInputCommandParameter) -> (name: Option<Vec<u8>>)
        ensures
            name is Some == terminal_name(input) is Some,
            name matches Some(bytes) ==> terminal_name(input) == Some(bytes@),
    {
        let (word, value) = match input {
            PjLinkInputCommandParameter::RGB(value) => (
                vec!['V' as u8, 'G' as u8, 'A' as u8],
                value,
            ),
            PjLinkInputCommandParameter::Video(value) => (
                vec!['A' as u8, 'n' as u8, 'a' as u8, 'l' as u8, 'o' as u8, 'g' as u8],
                value,
            ),
            PjLinkInputCommandParameter::Digital(value) => (
                vec!['H' as u8, 'D' as u8, 'M' as u8, 'I' as u8],
                value,
            ),
            PjLinkInputCommandParameter::Storage(value) => (
                vec!['S' as u8, 't' as u8, 'o' as u8, 'r' as u8, 'a' as u8, 'g' as u8, 'e' as u8],
                value,
            ),
            PjLinkInputCommandParameter::Network(value) => (
                vec!['N' as u8, 'e' as u8, 't' as u8, 'w' as u8, 'o' as u8, 'r' as u8, 'k' as u8],
                value,
            ),
            PjLinkInputCommandParameter::Internal(value) => (
                vec![
                    'I' as u8,
                    'n' as u8,
                    't' as u8,
                    'e' as u8,
                    'r' as u8,
                    'n' as u8,
                    'a' as u8,
                    'l' as u8,
                ],
                value,
            ),
            _ => {
                return None;
            },
        };
        let mut name = word;
        name.push(value);
        assert(terminal_name(input) is Some && name@ =~= terminal_name(input)->0);
        Some(name)
    }

    /// Sets the mute status as a mute command asks for.
    fn set_mute(&mut self, own: u8, other: u8, mute: bool)
        ensures
            final(self).options == old(self).options,
            final(self).state == (PjLinkMockProjectorState {
                mute_target: mute_after_single(
                    old(self).state.mute_target,
                    old(self).state.mute_flag,
                    own,
                    other,
                    mute,
                ).0,
                mute_flag: mute_after_single(
                    old(self).state.mute_target,
                    old(self).state.mute_flag,
                    own,
                    other,
                    mute,
                ).1,
                ..old(self).state
            }),
    {
        let is_muted = self.state.mute_flag == PjLinkMuteCommandStatus::Mute;
        let current_muted_item = self.state.mute_target;
        if current_muted_item == other && is_muted && mute {
            self.state.mute_target = PjLinkMuteCommandStatus::AudioAndVideo;
            self.state.mute_flag = PjLinkMuteCommandStatus::Mute;
        } else if current_muted_item == PjLinkMuteCommandStatus::AudioAndVideo && is_muted
            && !mute {
            self.state.mute_target = other;
            self.state.mute_flag = PjLinkMuteCommandStatus::Mute;
        } else {
            self.state.mute_flag = if mute {
                PjLinkMuteCommandStatus::Mute
            } else {
                PjLinkMuteCommandStatus::NonMute
            };
        }
    }
}

impl PjLinkHandler for PjLinkMockProjector {
    /// The password that the projector was told.
    fn get_password(&mut self, _connection_id: &u64) -> (password: Option<String>)
        ensures
            password == old(self).options.password,
            *final(self) == *old(self),
    {
        match &self.options.password {
            Some(password) => Some(password.clone()),
            None => None,
        }
    }

    /// Answers a command and remembers what it sets.
    fn handle_command(
        &mut self,
        command: PjLinkCommand,
        _raw_command: &PjLinkRawPayload,
        _connection_id: &u64,
    ) -> (response: PjLinkResponse)
        ensures
            response@ == answer_to(old(self).options, old(self).state, command),
            final(self).state == state_after(old(self).state, command),
            final(self).options == old(self).options,
    {
        match command {
            PjLinkCommand::Power1(PjLinkPowerCommandParameter::Query) => PjLinkResponse::Single(
                self.state.power_on,
            ),
            PjLinkCommand::Power1(PjLinkPowerCommandParameter::On) => {
                self.state.power_on = PjLinkPowerCommandStatus::On;
                PjLinkResponse::Okay
            },
            PjLinkCommand::Power1(PjLinkPowerCommandParameter::Off) => {
                self.state.power_on = PjLinkPowerCommandStatus::Off;
                PjLinkResponse::Okay
            },
            PjLinkCommand::Input1(PjLinkInputCommandParameter::Query)
            | PjLinkCommand::Input2(PjLinkInputCommandParameter::Query) => {
                let status = vec![self.state.input_kind, self.state.input_value];
                assert(status@ =~= seq![self.state.input_kind, self.state.input_value]);
                PjLinkResponse::Multiple(status)
            },
            PjLinkCommand::Input1(input) | PjLinkCommand::Input2(input) => {
                let (kind, value) = match input {
                    PjLinkInputCommandParameter::RGB(value) => (
                        PjLinkInputCommandStatus::RGB,
                        value,
                    ),
                    PjLinkInputCommandParameter::Video(value) => (
                        PjLinkInputCommandStatus::Video,
                        value,
                    ),
                    PjLinkInputCommandParameter::Digital(value) => (
                        PjLinkInputCommandStatus::Digital,
                        value,
                    ),
                    PjLinkInputCommandParameter::Storage(value) => (
                        PjLinkInputCommandStatus::Storage,
                        value,
                    ),
                    PjLinkInputCommandParameter::Network(value) => (
                        PjLinkInputCommandStatus::Network,
                        value,
                    ),
                    PjLinkInputCommandParameter::Internal(value) => (
                        PjLinkInputCommandStatus::Internal,
                        value,
                    ),
                    _ => {
                        return PjLinkResponse::OutOfParameter;
                    },
                };
                self.state.input_kind = kind;
                self.state.input_value = value;
                PjLinkResponse::Okay
            },
            PjLinkCommand::AvMute1(PjLinkMuteCommandParameter::Query) => {
                let status = vec![self.state.mute_target, self.state.mute_flag];
                assert(status@ =~= seq![self.state.mute_target, self.state.mute_flag]);
                PjLinkResponse::Multiple(status)
            },
            PjLinkCommand::AvMute1(parameter) => {
                match parameter {
                    PjLinkMuteCommandParameter::Audio(mute) => {
                        self.set_mute(
                            PjLinkMuteCommandStatus::Audio,
                            PjLinkMuteCommandStatus::Video,
                            mute,
                        );
                    },
                    PjLinkMuteCommandParameter::Video(mute) => {
                        self.set_mute(
                            PjLinkMuteCommandStatus::Video,
                            PjLinkMuteCommandStatus::Audio,
                            mute,
                        );
                    },
                    PjLinkMuteCommandParameter::AudioAndVideo(mute) => {
                        self.state.mute_target = PjLinkMuteCommandStatus::AudioAndVideo;
                        self.state.mute_flag = if mute {
                            PjLinkMuteCommandStatus::Mute
                        } else {
                            PjLinkMuteCommandStatus::NonMute
                        };
                    },
                    _ => {
                        return PjLinkResponse::OutOfParameter;
                    },
                }
                PjLinkResponse::Okay
            },
            PjLinkCommand::ErrorStatus1 => {
                let status = vec![
                    self.state.error_fan_status,
                    self.state.error_lamp_status,
                    self.state.error_temperature_status,
                    self.state.error_cover_open_status,
                    self.state.error_filter_status,
                    self.state.error_other_status,
                ];
                assert(status@ =~= seq![
                    self.state.error_fan_status,
                    self.state.error_lamp_status,
                    self.state.error_temperature_status,
                    self.state.error_cover_open_status,
                    self.state.error_filter_status,
                    self.state.error_other_status,
                ]);
                PjLinkResponse::Multiple(status)
            },
            PjLinkCommand::Lamp1 => {
                let mut hours = copy_of(&self.state.lamp_hours);
                hours.push(' ' as u8);
                hours.push(self.state.power_on);
                assert(hours@ =~= self.state.lamp_hours@ + seq![' ' as u8, self.state.power_on]);
                PjLinkResponse::Multiple(hours)
            },
            PjLinkCommand::InputTogglingList1 | PjLinkCommand::InputTogglingList2 => {
                PjLinkResponse::Multiple(copy_of(&self.state.available_inputs))
            },
            PjLinkCommand::Name1 => PjLinkResponse::Multiple(copy_of(&self.options.projector_name)),
            PjLinkCommand::InfoManufacturer1 => PjLinkResponse::Multiple(
                copy_of(&self.options.manufacturer_name),
            ),
            PjLinkCommand::InfoProductName1 => PjLinkResponse::Multiple(
                copy_of(&self.options.product_name),
            ),
            PjLinkCommand::InfoOther1 => PjLinkResponse::Multiple(Vec::new()),
            PjLinkCommand::Class1 => PjLinkResponse::Single(self.options.class_type),
            PjLinkCommand::SerialNumber2 => PjLinkResponse::Multiple(
                copy_of(&self.options.serial_number),
            ),
            PjLinkCommand::SoftwareVersion2 => PjLinkResponse::Multiple(
                copy_of(&self.options.software_version),
            ),
            PjLinkCommand::InputTerminalName2(input_type) => {
                match Self::terminal_name_of(input_type) {
                    Some(name) => PjLinkResponse::Multiple(name),
                    None => PjLinkResponse::OutOfParameter,
                }
            },
            PjLinkCommand::InputResolution2 => PjLinkResponse::Multiple(
                copy_of(&self.options.screen_resolution),
            ),
            PjLinkCommand::RecommendResolution2 => PjLinkResponse::Multiple(
                copy_of(&self.options.recommended_screen_resolution),
            ),
            PjLinkCommand::FilterUsageTime2 => PjLinkResponse::Multiple(
                copy_of(&self.state.filter_hours),
            ),
            PjLinkCommand::LampReplacementModelNumber2 => PjLinkResponse::Empty,
            PjLinkCommand::FilterReplacementModelNumber2 => PjLinkResponse::Empty,
            PjLinkCommand::SpeakerVolumeAdjustment2(param)
            | PjLinkCommand::MicrophoneVolumeAdjustment2(param) => {
                match param {
                    PjLinkVolumeCommandParameter::Unknown => PjLinkResponse::OutOfParameter,
                    _ => PjLinkResponse::Okay,
                }
            },
            PjLinkCommand::Freeze2(PjLinkFreezeCommandParameter::Query) => PjLinkResponse::Single(
                self.state.freeze_status,
            ),
            PjLinkCommand::Freeze2(instruction) => {
                self.state.freeze_status = match instruction {
                    PjLinkFreezeCommandParameter::Freeze => PjLinkFreezeCommandStatus::Freezed,
                    PjLinkFreezeCommandParameter::Unfreeze => PjLinkFreezeCommandStatus::Unfreezed,
                    _ => {
                        return PjLinkResponse::OutOfParameter;
                    },
                };
                PjLinkResponse::Okay
            },
            PjLinkCommand::Unknown => PjLinkResponse::Undefined,
            _ => PjLinkResponse::OutOfParameter,
        }
    }
}

} // verus!
