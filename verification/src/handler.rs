//! The contract between the server and the owner of the projector state.

use vstd::prelude::*;
use crate::command::PjLinkCommand;
use crate::payload::PjLinkRawPayload;
use crate::response::PjLinkResponse;

verus! {

/// The owner of the projector state. The server asks it for the password
/// once, when a session opens, and hands it every command that a client
/// sends after that.
pub trait PjLinkHandler: Send {
    /// The password that the session has to authenticate with, or `None`
    /// for a session without authentication.
    fn get_password(&mut self, connection_id: &u64) -> Option<String>;

    /// Answers one command. `raw_command` is the line that `command` was
    /// read from.
    fn handle_command(
        &mut self,
        command: PjLinkCommand,
        raw_command: &PjLinkRawPayload,
        connection_id: &u64,
    ) -> PjLinkResponse;
}

} // verus!
