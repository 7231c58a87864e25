//! Wire constants and code tables: framing bytes, fixed tokens,
//! authentication prologues, broadcast command bodies and status codes.

use vstd::prelude::*;

verus! {

/// Header byte (`%`) that opens every command and response line.
pub const PJLINK_HEADER: u8 = '%' as u8;

/// Separator between command body and parameter in a request (space).
pub const PJLINK_COMMAND_SEPARATOR: u8 = 0x20;

/// Separator between command body and parameter in a response (`=`).
pub const PJLINK_RESPONSE_SEPARATOR: u8 = 0x3d;

/// Terminator that closes every line (carriage return).
pub const PJLINK_TERMINATOR: u8 = 0x0d;

/// The query character (`?`), as a `char`.
pub const PJLINK_QUERY_CHAR: char = '?';

/// The query character (`?`), as a byte.
pub const PJLINK_QUERY: u8 = PJLINK_QUERY_CHAR as u8;

/// Prologue sent when the projector asks for no password: `PJLINK 0` and
/// the terminator.
pub const PJLINK_NULLIFIED_SECURITY: &'static [u8; 9] = &[
    'P' as u8,
    'J' as u8,
    'L' as u8,
    'I' as u8,
    'N' as u8,
    'K' as u8,
    ' ' as u8,
    '0' as u8,
    0x0d,
];

/// Start of the prologue sent when a password is set: `PJLINK 1 `. The
/// salt and the terminator follow it.
pub const PJLINK_SECURITY: &'static [u8; 9] = &[
    'P' as u8,
    'J' as u8,
    'L' as u8,
    'I' as u8,
    'N' as u8,
    'K' as u8,
    ' ' as u8,
    '1' as u8,
    ' ' as u8,
];

/// Line sent when the offered password hash is refused: `PJLINK ERRA` and
/// the terminator.
pub const PJLINK_SECURITY_ERRA: &'static [u8; 12] = &[
    'P' as u8,
    'J' as u8,
    'L' as u8,
    'I' as u8,
    'N' as u8,
    'K' as u8,
    ' ' as u8,
    'E' as u8,
    'R' as u8,
    'R' as u8,
    'A' as u8,
    0x0d,
];

/// The search datagram a controller broadcasts: `%2SRCH` and the
/// terminator. It carries no separator.
pub const PJLINK_BROADCAST_SEARCH_START: &'static [u8; 7] = &[
    '%' as u8,
    '2' as u8,
    'S' as u8,
    'R' as u8,
    'C' as u8,
    'H' as u8,
    0x0d,
];

/// Command body of the answer to a search: `2ACKN`.
pub const PJLINK_BROADCAST_MESSAGE_ACKN: &'static [u8; 5] = &[
    '2' as u8,
    'A' as u8,
    'C' as u8,
    'K' as u8,
    'N' as u8,
];

/// Command body of the lookup notification: `2LKUP`.
pub const PJLINK_BROADCAST_MESSAGE_LKUP: &'static [u8; 5] = &[
    '2' as u8,
    'L' as u8,
    'K' as u8,
    'U' as u8,
    'P' as u8,
];

/// Command body of the error status notification: `2ERST`.
pub const PJLINK_BROADCAST_MESSAGE_ERST: &'static [u8; 5] = &[
    '2' as u8,
    'E' as u8,
    'R' as u8,
    'S' as u8,
    'T' as u8,
];

/// Command body of the power status notification: `2POWR`.
pub const PJLINK_BROADCAST_MESSAGE_POWR: &'static [u8; 5] = &[
    '2' as u8,
    'P' as u8,
    'O' as u8,
    'W' as u8,
    'R' as u8,
];

/// Command body of the input change notification: `2INPT`.
pub const PJLINK_BROADCAST_MESSAGE_INPT: &'static [u8; 5] = &[
    '2' as u8,
    'I' as u8,
    'N' as u8,
    'P' as u8,
    'T' as u8,
];

/// Largest broadcast datagram the protocol defines, in bytes.
pub const PJLINK_MAX_BROADCAST_BUFFER_SIZE: usize = 25;

/// Response parameter of a successful execution: `OK`.
pub const PJLINK_RESPONSE_TRANSMISSION_PARAMETER_OK: &'static [u8; 2] = &['O' as u8, 'K' as u8];

/// Response parameter of an undefined command: `ERR1`.
pub const PJLINK_RESPONSE_TRANSMISSION_PARAMETER_ERR1: &'static [u8; 4] = &[
    'E' as u8,
    'R' as u8,
    'R' as u8,
    '1' as u8,
];

/// Response parameter of a parameter out of range: `ERR2`.
pub const PJLINK_RESPONSE_TRANSMISSION_PARAMETER_ERR2: &'static [u8; 4] = &[
    'E' as u8,
    'R' as u8,
    'R' as u8,
    '2' as u8,
];

/// Response parameter of a command refused at this time: `ERR3`.
pub const PJLINK_RESPONSE_TRANSMISSION_PARAMETER_ERR3: &'static [u8; 4] = &[
    'E' as u8,
    'R' as u8,
    'R' as u8,
    '3' as u8,
];

/// Response parameter of a projector or display failure: `ERR4`.
pub const PJLINK_RESPONSE_TRANSMISSION_PARAMETER_ERR4: &'static [u8; 4] = &[
    'E' as u8,
    'R' as u8,
    'R' as u8,
    '4' as u8,
];

/// Power status codes, as answered to a power query.
pub struct PjLinkPowerCommandStatus;

#[allow(non_upper_case_globals)]
impl PjLinkPowerCommandStatus {
    /// The projector is off.
    pub const Off: u8 = '0' as u8;

    /// The projector is on.
    pub const On: u8 = '1' as u8;

    /// The projector is cooling down.
    pub const Cooling: u8 = '2' as u8;

    /// The projector is warming up.
    pub const WarmUp: u8 = '3' as u8;
}

/// Class codes, as answered to a class query.
pub struct PjLinkClassCommandStatus;

#[allow(non_upper_case_globals)]
impl PjLinkClassCommandStatus {
    /// The projector supports class 1 commands.
    pub const Class1: u8 = '1' as u8;

    /// The projector supports class 1 and class 2 commands.
    pub const Class2: u8 = '2' as u8;
}

/// Codes of one item of an error status answer.
pub struct PjLinkErrorStatusCommandStatusItem;

#[allow(non_upper_case_globals)]
impl PjLinkErrorStatusCommandStatusItem {
    /// The item is normal, or is not checked.
    pub const Normal: u8 = '0' as u8;

    /// The item is in warning state.
    pub const Warning: u8 = '1' as u8;

    /// The item is in error state.
    pub const Error: u8 = '2' as u8;
}

/// Input kind codes: the first byte of an input parameter.
pub struct PjLinkInputCommandStatus;

#[allow(non_upper_case_globals)]
impl PjLinkInputCommandStatus {
    pub const RGB: u8 = '1' as u8;

    pub const Video: u8 = '2' as u8;

    pub const Digital: u8 = '3' as u8;

    pub const Storage: u8 = '4' as u8;

    pub const Network: u8 = '5' as u8;

    pub const Internal: u8 = '6' as u8;
}

/// Mute codes: the target (first byte) and the flag (second byte) of a
/// mute parameter.
pub struct PjLinkMuteCommandStatus;

#[allow(non_upper_case_globals)]
impl PjLinkMuteCommandStatus {
    pub const Audio: u8 = '2' as u8;

    pub const Video: u8 = '1' as u8;

    pub const AudioAndVideo: u8 = '3' as u8;

    pub const Mute: u8 = '1' as u8;

    pub const NonMute: u8 = '0' as u8;
}

/// Special answers to an input resolution query.
pub struct PjLinkInputResolutionCommandStatus;

#[allow(non_upper_case_globals)]
impl PjLinkInputResolutionCommandStatus {
    /// No signal is present.
    pub const NoSignal: u8 = '-' as u8;

    /// The signal is unknown.
    pub const Unknown: u8 = '*' as u8;
}

/// Freeze status codes, as answered to a freeze query.
pub struct PjLinkFreezeCommandStatus;

#[allow(non_upper_case_globals)]
impl PjLinkFreezeCommandStatus {
    pub const Freezed: u8 = '1' as u8;

    pub const Unfreezed: u8 = '0' as u8;
}

} // verus!
