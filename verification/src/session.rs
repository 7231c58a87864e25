//! The state machine of one connection: the greeting, the optional
//! authentication, and the exchange of requests and responses.

use vstd::prelude::*;
use crate::auth::{
    challenge_prologue,
    generate_random_number,
    generate_security_error,
    handle_password_hash_response,
    handle_password_input,
    hash_accepted,
    md5_digest,
    salted_password,
    PJLINK_PASSWORD_HASH_LENGTH,
};
use crate::command::{classify, PjLinkCommand};
use crate::handler::PjLinkHandler;
use crate::hex::upper_hex_u32;
use crate::payload::{parse_line, response_line, serialize_line, PjLinkLine, PjLinkRawPayload};
use crate::response::PjLinkResponse;
use crate::wire::{
    PJLINK_HEADER,
    PJLINK_NULLIFIED_SECURITY,
    PJLINK_RESPONSE_SEPARATOR,
    PJLINK_SECURITY_ERRA,
    PJLINK_TERMINATOR,
};

verus! {

/// Where a session stands.
#[derive(Debug, Clone, Copy, PartialEq, Eq)]
pub enum PjLinkSessionState {
    /// Accepted; nothing has been written yet.
    Greet,
    /// The challenge has been written; the next line has to carry the
    /// password hash.
    AwaitAuth,
    /// Requests are answered.
    Ready,
    /// The connection is to be dropped.
    Closed,
}

/// What a session holds, as mathematical values.
pub struct PjLinkSessionView {
    /// Number of the connection.
    pub connection_id: u64,
    /// Where the session stands.
    pub state: PjLinkSessionState,
    /// The password, where the session authenticates.
    pub password: Option<Seq<char>>,
    /// The salt of the challenge, where the session authenticates.
    pub password_salt: Option<Seq<u8>>,
}

/// What a received line comes to.
pub enum PjLinkAdmission {
    /// The line carries this request, which stands for this command and
    /// is to be answered.
    Request(PjLinkRawPayload, PjLinkCommand),
    /// The line was to authenticate the session and does not.
    Refused,
    /// The line is no request; it gets no answer.
    Dropped,
}

/// What a received line comes to, as mathematical values.
pub enum PjLinkAdmissionView {
    Request(PjLinkLine, PjLinkCommand),
    Refused,
    Dropped,
}

impl View for PjLinkAdmission {
    type V = PjLinkAdmissionView;

    open spec fn view(&self) -> PjLinkAdmissionView {
        match self {
            PjLinkAdmission::Request(request, command) => PjLinkAdmissionView::Request(
                request@,
                *command,
            ),
            PjLinkAdmission::Refused => PjLinkAdmissionView::Refused,
            PjLinkAdmission::Dropped => PjLinkAdmissionView::Dropped,
        }
    }
}

/// What the connection has to do after a line.
#[derive(Debug, PartialEq, Eq)]
pub enum PjLinkAction {
    /// Write the bytes and go on reading.
    Reply(Vec<u8>),
    /// Write the bytes and drop the connection.
    Reject(Vec<u8>),
    /// Drop the connection and write nothing.
    Close,
}

/// The state of one connection.
pub struct PjLinkSession {
    connection_id: u64,
    state: PjLinkSessionState,
    password: Option<String>,
    password_salt: Option<Vec<u8>>,
}

/// Whether every byte of a command body is an ASCII character.
pub open spec fn is_ascii_body(body: Seq<u8>) -> bool {
    forall|index: int| 0 <= index < body.len() ==> body[index] < 0x80
}

/// What a line is read as where requests are answered: the request it
/// holds with the command that the request stands for, or nothing where
/// the line is not well framed or its command body is not ASCII.
pub open spec fn request_in(line: Seq<u8>) -> PjLinkAdmissionView {
    match parse_line(line) {
        Ok(request) => if is_ascii_body(request.body) {
            PjLinkAdmissionView::Request(request, classify(request.body, request.parameter))
        } else {
            PjLinkAdmissionView::Dropped
        },
        Err(_) => PjLinkAdmissionView::Dropped,
    }
}

/// What a line comes to in a session. While the session waits for the
/// password hash, the line has to open with it, and what follows the hash
/// on the same line is read as the first request. Once the session is
/// ready, the whole line is read as a request. Before the greeting and
/// after the close no line is read.
pub open spec fn admission_of(session: PjLinkSessionView, line: Seq<u8>) -> PjLinkAdmissionView {
    match session.state {
        PjLinkSessionState::Greet => PjLinkAdmissionView::Dropped,
        PjLinkSessionState::AwaitAuth => if session.password is Some && session.password_salt
            is Some && hash_accepted(
            line,
            md5_digest(salted_password(session.password_salt->0, session.password->0)),
        ) {
            request_in(line.skip(PJLINK_PASSWORD_HASH_LENGTH as int))
        } else {
            PjLinkAdmissionView::Refused
        },
        PjLinkSessionState::Ready => request_in(line),
        PjLinkSessionState::Closed => PjLinkAdmissionView::Dropped,
    }
}

/// The session after a line: ready where the line held a request, closed
/// otherwise.
pub open spec fn after_line(session: PjLinkSessionView, line: Seq<u8>) -> PjLinkSessionView {
    PjLinkSessionView {
        state: if admission_of(session, line) is Request {
            PjLinkSessionState::Ready
        } else {
            PjLinkSessionState::Closed
        },
        ..session
    }
}

/// The session after its greeting: ready where there is no password,
/// waiting for the hash where there is one, with the random number as
/// salt.
pub open spec fn after_greeting(
    session: PjLinkSessionView,
    password: Option<Seq<char>>,
    random_number: u32,
) -> PjLinkSessionView {
    PjLinkSessionView {
        connection_id: session.connection_id,
        state: if password is Some {
            PjLinkSessionState::AwaitAuth
        } else {
            PjLinkSessionState::Ready
        },
        password,
        password_salt: if password is Some {
            Some(upper_hex_u32(random_number))
        } else {
            None
        },
    }
}

/// The prologue that greets a session: the nullified one where there is
/// no password, the challenge with the random number as salt where there
/// is one.
pub open spec fn greeting(password: Option<Seq<char>>, random_number: u32) -> Seq<u8> {
    if password is Some {
        challenge_prologue(upper_hex_u32(random_number))
    } else {
        PJLINK_NULLIFIED_SECURITY@
    }
}

/// The bytes that answer a request with a response: the response line on
/// the command body of the request.
pub open spec fn answer(request: PjLinkLine, response: PjLinkResponse) -> Seq<u8> {
    serialize_line(response_line(request.body, response.parameter()))
}

/// Whether the bytes answer the request with some response.
pub open spec fn answers(request: PjLinkLine, buffer: Seq<u8>) -> bool {
    exists|response: PjLinkResponse| buffer == #[trigger] answer(request, response)
}

/// The password of a handler's answer, as characters.
pub open spec fn password_view(password: Option<String>) -> Option<Seq<char>> {
    match password {
        Some(text) => Some(text@),
        None => None,
    }
}

impl View for PjLinkSession {
    type V = PjLinkSessionView;

    closed spec fn view(&self) -> PjLinkSessionView {
        PjLinkSessionView {
            connection_id: self.connection_id,
            state: self.state,
            password: password_view(self.password),
            password_salt: match self.password_salt {
                Some(salt) => Some(salt@),
                None => None,
            },
        }
    }
}

impl PjLinkSession {
    /// A session waits for the hash only where it has a password and a
    /// salt to check the hash against.
    #[verifier::type_invariant]
    spec fn can_check_hash(&self) -> bool {
        self.state is AwaitAuth ==> self.password is Some && self.password_salt is Some
    }

    /// The session of a connection that has just been accepted.
    pub fn new(connection_id: u64) -> (session: PjLinkSession)
        ensures
            session@ == (PjLinkSessionView {
                connection_id,
                state: PjLinkSessionState::Greet,
                password: None,
                password_salt: None,
            }),
    {
        PjLinkSession {
            connection_id,
            state: PjLinkSessionState::Greet,
            password: None,
            password_salt: None,
        }
    }

    /// Number of the connection.
    pub fn connection_id(&self) -> (connection_id: u64)
        ensures
            connection_id == self@.connection_id,
    {
        self.connection_id
    }

    /// Where the session stands.
    pub fn state(&self) -> (state: PjLinkSessionState)
        ensures
            state == self@.state,
    {
        self.state
    }

    /// Whether the session asks for a password.
    pub fn use_auth(&self) -> (use_auth: bool)
        ensures
            use_auth == self@.password is Some,
    {
        self.password.is_some()
    }

    /// The salt of the challenge, where the session asks for a password.
    pub fn password_salt(&self) -> (password_salt: Option<Vec<u8>>)
        ensures
            password_salt is Some == self@.password_salt is Some,
            password_salt matches Some(salt) ==> self@.password_salt == Some(salt@),
    {
        match &self.password_salt {
            Some(salt) => Some(vstd::slice::slice_to_vec(salt.as_slice())),
            None => None,
        }
    }

    /// Whether the session asked for a password and got its hash.
    pub fn has_authenticated(&self) -> (has_authenticated: bool)
        ensures
            has_authenticated == (self@.password is Some && self@.state is Ready),
    {
        self.password.is_some() && matches!(self.state, PjLinkSessionState::Ready)
    }

    /// Greets the client with the given password and random number. A
    /// session is greeted once: the prologue comes out of the first call,
    /// and a later call changes nothing and gives nothing to write.
    pub fn greet_with(&mut self, password: Option<String>, random_number: u32) -> (prologue: Option<
        Vec<u8>,
    >)
        ensures
            old(self)@.state is Greet ==> prologue is Some && prologue->0@ == greeting(
                password_view(password),
                random_number,
            ) && final(self)@ == after_greeting(
                old(self)@,
                password_view(password),
                random_number,
            ),
            !(old(self)@.state is Greet) ==> prologue is None && final(self)@ == old(self)@,
    {
        if !matches!(self.state, PjLinkSessionState::Greet) {
            return None;
        }
        let (auth_buffer, use_auth, password_salt) = handle_password_input(
            &password,
            random_number,
        );
        let state = if use_auth {
            PjLinkSessionState::AwaitAuth
        } else {
            PjLinkSessionState::Ready
        };
        *self = PjLinkSession {
            connection_id: self.connection_id,
            state,
            password,
            password_salt,
        };
        Some(auth_buffer)
    }

    /// Greets the client: asks the handler for the password, draws the
    /// random number of the salt, and gives the prologue to write. The
    /// handler is asked only where the session has not been greeted yet.
    pub fn greet<H: PjLinkHandler>(&mut self, handler: &mut H) -> (prologue: Option<Vec<u8>>)
        ensures
            old(self)@.state is Greet ==> prologue is Some && exists|
                password: Option<Seq<char>>,
                random_number: u32,
            |
                prologue->0@ == greeting(password, random_number) && final(self)@
                    == after_greeting(old(self)@, password, random_number),
            !(old(self)@.state is Greet) ==> prologue is None && final(self)@ == old(self)@,
    {
        if !matches!(self.state, PjLinkSessionState::Greet) {
            return None;
        }
        let connection_id = self.connection_id;
        let password = handler.get_password(&connection_id);
        let random_number = generate_random_number();
        let ghost chosen = password_view(password);
        let prologue = self.greet_with(password, random_number);
        assert(prologue->0@ == greeting(chosen, random_number) && self@ == after_greeting(
            old(self)@,
            chosen,
            random_number,
        ));
        prologue
    }

    /// Decides what a received line comes to, and moves the session on:
    /// to ready where the line holds a request, to closed otherwise.
    pub fn receive(&mut self, line: &[u8]) -> (admission: PjLinkAdmission)
        ensures
            admission@ == admission_of(old(self)@, line@),
            final(self)@ == after_line(old(self)@, line@),
    {
        proof {
            use_type_invariant(&*self);
        }
        let admission = match self.state {
            PjLinkSessionState::Greet => PjLinkAdmission::Dropped,
            PjLinkSessionState::Closed => PjLinkAdmission::Dropped,
            PjLinkSessionState::Ready => Self::read_request(line),
            PjLinkSessionState::AwaitAuth => {
                let mut input_command_buffer = vstd::slice::slice_to_vec(line);
                let accepted = match (&self.password, &self.password_salt) {
                    (Some(password), Some(password_salt)) => handle_password_hash_response(
                        &mut input_command_buffer,
                        password.as_str(),
                        password_salt.as_slice(),
                    ),
                    _ => false,
                };
                if accepted {
                    Self::read_request(input_command_buffer.as_slice())
                } else {
                    PjLinkAdmission::Refused
                }
            },
        };
        self.state = match admission {
            PjLinkAdmission::Request(_, _) => PjLinkSessionState::Ready,
            _ => PjLinkSessionState::Closed,
        };
        admission
    }

    /// Reads a line as a request.
    fn read_request(line: &[u8]) -> (admission: PjLinkAdmission)
        ensures
            admission@ == request_in(line@),
    {
        match PjLinkRawPayload::from_line(line) {
            Ok(request) => {
                let body = &request.command_body_with_class;
                let ascii = body[0] < 0x80 && body[1] < 0x80 && body[2] < 0x80 && body[3] < 0x80
                    && body[4] < 0x80;
                if ascii {
                    let command = PjLinkCommand::from_raw_payload(&request);
                    PjLinkAdmission::Request(request, command)
                } else {
                    PjLinkAdmission::Dropped
                }
            },
            Err(_) => PjLinkAdmission::Dropped,
        }
    }

    /// The bytes that answer a request with the response of the handler.
    pub fn respond(&self, request: PjLinkRawPayload, response: PjLinkResponse) -> (buffer: Vec<
        u8,
    >)
        ensures
            buffer@ == answer(request@, response),
    {
        let raw_response = request.update_with_response(response, &self.connection_id);
        PjLinkRawPayload::write_to_buffer(raw_response)
    }

    /// Takes one received line, without its terminator, through the
    /// session. A request is handed to the handler with the command it
    /// stands for, as `receive` gives them, and the handler's response is
    /// written on the command body of the request. A
    /// line that fails to authenticate is answered with the authentication
    /// error, and the connection is dropped. Any other line drops the
    /// connection without an answer. The handler is called only for a
    /// request.
    pub fn handle_line<H: PjLinkHandler>(&mut self, handler: &mut H, line: &[u8]) -> (action:
        PjLinkAction)
        ensures
            final(self)@ == after_line(old(self)@, line@),
            admission_of(old(self)@, line@) matches PjLinkAdmissionView::Request(request, _)
                ==> action is Reply && answers(request, action->Reply_0@),
            admission_of(old(self)@, line@) is Refused ==> action is Reject && action->Reject_0@
                == PJLINK_SECURITY_ERRA@,
            admission_of(old(self)@, line@) is Dropped ==> action is Close,
    {
        let admission = self.receive(line);
        match admission {
            PjLinkAdmission::Request(request, command) => {
                let connection_id = self.connection_id;
                let response = handler.handle_command(command, &request, &connection_id);
                let ghost asked = request@;
                let ghost given = response;
                let buffer = self.respond(request, response);
                assert(buffer@ == answer(asked, given));
                PjLinkAction::Reply(buffer)
            },
            PjLinkAdmission::Refused => PjLinkAction::Reject(generate_security_error()),
            PjLinkAdmission::Dropped => PjLinkAction::Close,
        }
    }
}

/// A greeting is exactly one of the two prologues: without password the
/// nullified one, which is no challenge for any salt; with a password the
/// challenge, which is not the nullified prologue.
pub proof fn lemma_greeting_is_one_prologue(password: Option<Seq<char>>, random_number: u32)
    ensures
        password is None ==> greeting(password, random_number) == PJLINK_NULLIFIED_SECURITY@
            && forall|salt: Seq<u8>|
            greeting(password, random_number) != #[trigger] challenge_prologue(salt),
        password is Some ==> greeting(password, random_number) == challenge_prologue(
            upper_hex_u32(random_number),
        ) && greeting(password, random_number) != PJLINK_NULLIFIED_SECURITY@,
{
    assert forall|salt: Seq<u8>|
        PJLINK_NULLIFIED_SECURITY@ != #[trigger] challenge_prologue(salt) by {
        assert(challenge_prologue(salt)[7] == '1' as u8);
        assert(PJLINK_NULLIFIED_SECURITY@[7] == '0' as u8);
    }
}

/// No request is read before the greeting, nor after the close: a line
/// that comes then is dropped, whatever it holds.
pub proof fn lemma_no_request_without_greeting(session: PjLinkSessionView, line: Seq<u8>)
    requires
        session.state is Greet || session.state is Closed,
    ensures
        admission_of(session, line) is Dropped,
        after_line(session, line).state is Closed,
{
}

/// While a session waits for the password hash, a line is read as a
/// request only where it opens with the hash, and the request is what
/// follows the first 32 bytes of the line.
pub proof fn lemma_hash_is_stripped(session: PjLinkSessionView, line: Seq<u8>)
    requires
        session.state is AwaitAuth,
        admission_of(session, line) is Request,
    ensures
        line.len() >= PJLINK_PASSWORD_HASH_LENGTH + 7,
        admission_of(session, line) == request_in(line.skip(PJLINK_PASSWORD_HASH_LENGTH as int)),
        parse_line(line.skip(PJLINK_PASSWORD_HASH_LENGTH as int)) == Ok::<
            PjLinkLine,
            crate::payload::PjLinkFramingError,
        >(admission_of(session, line)->Request_0),
        admission_of(session, line)->Request_1 == classify(
            line.skip(PJLINK_PASSWORD_HASH_LENGTH as int).subrange(1, 6),
            line.skip(PJLINK_PASSWORD_HASH_LENGTH as int).skip(7),
        ),
{
}

/// An answer is a response line on the command body of its request: it
/// opens with the header, the body of the request and `=`, and it ends
/// with the terminator.
pub proof fn lemma_answer_keeps_body(request: PjLinkLine, buffer: Seq<u8>)
    requires
        request.body.len() == 5,
        answers(request, buffer),
    ensures
        buffer.len() >= 8,
        buffer[0] == PJLINK_HEADER,
        buffer.subrange(1, 6) == request.body,
        buffer[6] == PJLINK_RESPONSE_SEPARATOR,
        buffer.last() == PJLINK_TERMINATOR,
{
    let response = choose|response: PjLinkResponse| buffer == #[trigger] answer(request, response);
    assert(buffer.subrange(1, 6) =~= request.body);
}

} // verus!
