//! Server-side building blocks for the PJLink projector-control protocol
//! (version 2.00): the framing and parsing of lines, the command and
//! response algebras, the challenge-response authentication, the state
//! machine of a connection and the discovery responder. Sockets and
//! threads are left to the program that uses the library: it reads and
//! writes bytes, and asks the library what they mean.

pub mod auth;
pub mod command;
pub mod connection;
pub mod discovery;
pub mod handler;
pub mod hex;
pub mod mock;
pub mod payload;
pub mod response;
pub mod session;
pub mod wire;

pub use crate::command::{
    PjLinkCommand,
    PjLinkFreezeCommandParameter,
    PjLinkInputCommandParameter,
    PjLinkMuteCommandParameter,
    PjLinkPowerCommandParameter,
    PjLinkStatusCommand,
    PjLinkVolumeCommandParameter,
};
pub use crate::connection::{read_command_byte, PjLinkConnectionCounter};
pub use crate::handler::PjLinkHandler;
pub use crate::mock::{PjLinkMockProjector, PjLinkMockProjectorOptions, PjLinkMockProjectorState};
pub use crate::payload::{PjLinkFramingError, PjLinkRawPayload};
pub use crate::response::PjLinkResponse;
pub use crate::session::{PjLinkAction, PjLinkAdmission, PjLinkSession, PjLinkSessionState};
pub use crate::wire::{
    PjLinkClassCommandStatus,
    PjLinkErrorStatusCommandStatusItem,
    PjLinkFreezeCommandStatus,
    PjLinkInputCommandStatus,
    PjLinkInputResolutionCommandStatus,
    PjLinkMuteCommandStatus,
    PjLinkPowerCommandStatus,
    PJLINK_BROADCAST_MESSAGE_ACKN,
    PJLINK_BROADCAST_MESSAGE_ERST,
    PJLINK_BROADCAST_MESSAGE_INPT,
    PJLINK_BROADCAST_MESSAGE_LKUP,
    PJLINK_BROADCAST_MESSAGE_POWR,
    PJLINK_COMMAND_SEPARATOR,
    PJLINK_HEADER,
    PJLINK_MAX_BROADCAST_BUFFER_SIZE,
    PJLINK_QUERY,
    PJLINK_QUERY_CHAR,
    PJLINK_RESPONSE_SEPARATOR,
    PJLINK_TERMINATOR,
};
