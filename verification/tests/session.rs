use pjlink_bridge::{
    PjLinkAction, PjLinkAdmission, PjLinkCommand, PjLinkHandler, PjLinkMockProjector,
    PjLinkMockProjectorOptions, PjLinkRawPayload, PjLinkResponse, PjLinkSession,
    PjLinkSessionState,
};

fn options(password: Option<&str>) -> PjLinkMockProjectorOptions {
    PjLinkMockProjectorOptions {
        password: password.map(String::from),
        class_type: b'2',
        manufacturer_name: b"mateusmeyer mocks".to_vec(),
        product_name: b"projector-mock".to_vec(),
        projector_name: b"projector-001".to_vec(),
        serial_number: b"faa13ebee21677a2c064fd6ce067b50e".to_vec(),
        software_version: b"1.0".to_vec(),
        screen_resolution: b"1920x1080".to_vec(),
        recommended_screen_resolution: b"1920x1080".to_vec(),
    }
}

fn projector(password: Option<&str>) -> PjLinkMockProjector {
    PjLinkMockProjector::new(options(password))
}

struct FixedHandler {
    response: PjLinkResponse,
    password: Option<String>,
    asked_for_password: Vec<u64>,
    seen: Vec<(PjLinkCommand, PjLinkRawPayload, u64)>,
}

impl FixedHandler {
    fn new(response: PjLinkResponse, password: Option<&str>) -> FixedHandler {
        FixedHandler {
            response,
            password: password.map(String::from),
            asked_for_password: Vec::new(),
            seen: Vec::new(),
        }
    }
}

impl PjLinkHandler for FixedHandler {
    fn get_password(&mut self, connection_id: &u64) -> Option<String> {
        self.asked_for_password.push(*connection_id);
        self.password.clone()
    }

    fn handle_command(
        &mut self,
        command: PjLinkCommand,
        raw_command: &PjLinkRawPayload,
        connection_id: &u64,
    ) -> PjLinkResponse {
        self.seen.push((command, raw_command.clone(), *connection_id));
        self.response.clone()
    }
}

#[test]
fn new_session_waits_for_its_greeting() {
    let session = PjLinkSession::new(42);
    assert_eq!(session.connection_id(), 42);
    assert_eq!(session.state(), PjLinkSessionState::Greet);
    assert!(!session.use_auth());
    assert!(!session.has_authenticated());
}

#[test]
fn power_query_cold_start() {
    let mut handler = projector(None);
    let mut session = PjLinkSession::new(0);
    assert_eq!(session.greet(&mut handler), Some(b"PJLINK 0\r".to_vec()));
    assert_eq!(session.state(), PjLinkSessionState::Ready);
    assert_eq!(
        session.handle_line(&mut handler, b"%1POWR ?"),
        PjLinkAction::Reply(b"%1POWR=0\r".to_vec())
    );
    assert_eq!(session.state(), PjLinkSessionState::Ready);
}

#[test]
fn power_on_then_query() {
    let mut handler = projector(None);
    let mut session = PjLinkSession::new(0);
    assert_eq!(session.greet(&mut handler), Some(b"PJLINK 0\r".to_vec()));
    assert_eq!(
        session.handle_line(&mut handler, b"%1POWR ?"),
        PjLinkAction::Reply(b"%1POWR=0\r".to_vec())
    );
    assert_eq!(
        session.handle_line(&mut handler, b"%1POWR 1"),
        PjLinkAction::Reply(b"%1POWR=OK\r".to_vec())
    );
    assert_eq!(
        session.handle_line(&mut handler, b"%1POWR ?"),
        PjLinkAction::Reply(b"%1POWR=1\r".to_vec())
    );
}

#[test]
fn authenticated_first_request() {
    let mut handler = projector(Some("JBMIA"));
    let mut session = PjLinkSession::new(5);
    assert_eq!(
        session.greet_with(Some(String::from("JBMIA")), 0x0123_4567),
        Some(b"PJLINK 1 01234567\r".to_vec())
    );
    assert_eq!(session.state(), PjLinkSessionState::AwaitAuth);
    assert!(session.use_auth());
    assert!(!session.has_authenticated());
    assert_eq!(
        session.handle_line(&mut handler, b"95b5d186e7218733e0584aeff9d57bdf%1POWR ?"),
        PjLinkAction::Reply(b"%1POWR=0\r".to_vec())
    );
    assert_eq!(session.state(), PjLinkSessionState::Ready);
    assert!(session.has_authenticated());
    assert_eq!(
        session.handle_line(&mut handler, b"%1CLSS ?"),
        PjLinkAction::Reply(b"%1CLSS=2\r".to_vec())
    );
}

#[test]
fn authentication_failure() {
    let mut handler = FixedHandler::new(PjLinkResponse::Okay, Some("JBMIA"));
    let mut session = PjLinkSession::new(6);
    let prologue = session.greet(&mut handler).unwrap();
    assert_eq!(prologue.len(), 18);
    assert_eq!(
        session.handle_line(&mut handler, b"00000000000000000000000000000000%1POWR ?"),
        PjLinkAction::Reject(b"PJLINK ERRA\r".to_vec())
    );
    assert_eq!(session.state(), PjLinkSessionState::Closed);
    assert!(handler.seen.is_empty());
    assert_eq!(
        session.handle_line(&mut handler, b"%1POWR ?"),
        PjLinkAction::Close
    );
    assert!(handler.seen.is_empty());
}

#[test]
fn short_line_fails_authentication() {
    let mut handler = FixedHandler::new(PjLinkResponse::Okay, None);
    let mut session = PjLinkSession::new(6);
    session.greet_with(Some(String::from("JBMIA")), 1);
    assert_eq!(
        session.handle_line(&mut handler, b"%1POWR ?"),
        PjLinkAction::Reject(b"PJLINK ERRA\r".to_vec())
    );
    assert_eq!(session.state(), PjLinkSessionState::Closed);
    assert!(handler.seen.is_empty());
}

#[test]
fn hash_without_request_closes_silently() {
    let mut handler = FixedHandler::new(PjLinkResponse::Okay, None);
    let mut session = PjLinkSession::new(6);
    session.greet_with(Some(String::from("JBMIA")), 0x0123_4567);
    assert_eq!(
        session.handle_line(&mut handler, b"95b5d186e7218733e0584aeff9d57bdf"),
        PjLinkAction::Close
    );
    assert_eq!(session.state(), PjLinkSessionState::Closed);
    assert!(handler.seen.is_empty());
}

#[test]
fn unknown_opcode_is_undefined() {
    let mut handler = projector(None);
    let mut session = PjLinkSession::new(0);
    session.greet(&mut handler);
    assert_eq!(
        session.handle_line(&mut handler, b"%1XXXX ?"),
        PjLinkAction::Reply(b"%1XXXX=ERR1\r".to_vec())
    );
    assert_eq!(session.state(), PjLinkSessionState::Ready);
}

#[test]
fn challenge_has_eight_upper_case_digits() {
    let mut handler = FixedHandler::new(PjLinkResponse::Okay, Some("secret"));
    let mut session = PjLinkSession::new(11);
    let prologue = session.greet(&mut handler).unwrap();
    assert_eq!(handler.asked_for_password, vec![11]);
    assert_eq!(prologue.len(), 18);
    assert_eq!(&prologue[..9], b"PJLINK 1 ");
    assert_eq!(prologue[17], b'\r');
    for byte in &prologue[9..17] {
        assert!(matches!(*byte, b'0'..=b'9' | b'A'..=b'F'));
    }
    assert_eq!(session.state(), PjLinkSessionState::AwaitAuth);
    let digest = pjlink_bridge::auth::password_digest(&prologue[9..17], "secret");
    let mut line = pjlink_bridge::hex::format_lower_hex(&digest);
    line.extend_from_slice(b"%2FREZ ?");
    assert_eq!(
        session.handle_line(&mut handler, &line),
        PjLinkAction::Reply(b"%2FREZ=OK\r".to_vec())
    );
    assert_eq!(handler.seen.len(), 1);
}

#[test]
fn session_is_greeted_once() {
    let mut handler = FixedHandler::new(PjLinkResponse::Okay, None);
    let mut session = PjLinkSession::new(3);
    assert_eq!(session.greet(&mut handler), Some(b"PJLINK 0\r".to_vec()));
    assert_eq!(session.greet(&mut handler), None);
    assert_eq!(session.greet_with(Some(String::from("x")), 7), None);
    assert_eq!(handler.asked_for_password, vec![3]);
    assert_eq!(session.state(), PjLinkSessionState::Ready);
    assert!(!session.use_auth());
}

#[test]
fn no_request_is_read_before_the_greeting() {
    let mut handler = FixedHandler::new(PjLinkResponse::Okay, None);
    let mut session = PjLinkSession::new(3);
    assert_eq!(
        session.handle_line(&mut handler, b"%1POWR ?"),
        PjLinkAction::Close
    );
    assert_eq!(session.state(), PjLinkSessionState::Closed);
    assert!(handler.seen.is_empty());
    assert_eq!(session.greet(&mut handler), None);
    assert!(handler.asked_for_password.is_empty());
}

#[test]
fn handler_sees_command_line_and_connection() {
    let mut handler = FixedHandler::new(PjLinkResponse::OutOfParameter, None);
    let mut session = PjLinkSession::new(77);
    session.greet(&mut handler);
    assert_eq!(
        session.handle_line(&mut handler, b"%2INPT 3A"),
        PjLinkAction::Reply(b"%2INPT=ERR2\r".to_vec())
    );
    assert_eq!(handler.seen.len(), 1);
    let (command, raw, connection_id) = handler.seen.pop().unwrap();
    assert_eq!(
        command,
        PjLinkCommand::Input2(pjlink_bridge::PjLinkInputCommandParameter::Digital(b'A'))
    );
    assert_eq!(raw, PjLinkRawPayload::new_command(*b"2INPT", b"3A".to_vec()));
    assert_eq!(connection_id, 77);
}

#[test]
fn response_is_on_the_body_of_the_request() {
    for body in [b"1POWR", b"2INPT", b"1XXXX", b"9zzzz"] {
        let mut handler = FixedHandler::new(PjLinkResponse::Multiple(b"abc".to_vec()), None);
        let mut session = PjLinkSession::new(1);
        session.greet(&mut handler);
        let mut line = vec![b'%'];
        line.extend_from_slice(body);
        line.extend_from_slice(b" ?");
        match session.handle_line(&mut handler, &line) {
            PjLinkAction::Reply(buffer) => {
                assert_eq!(buffer[0], b'%');
                assert_eq!(&buffer[1..6], body);
                assert_eq!(buffer[6], b'=');
                assert_eq!(&buffer[7..], b"abc\r");
            }
            other => panic!("no reply: {:?}", other),
        }
    }
}

#[test]
fn framing_errors_close_without_answer() {
    for line in [&b""[..], &b"%1POW"[..], &b"1POWR ?"[..], &b"PJLINK"[..]] {
        let mut handler = FixedHandler::new(PjLinkResponse::Okay, None);
        let mut session = PjLinkSession::new(1);
        session.greet(&mut handler);
        assert_eq!(session.handle_line(&mut handler, line), PjLinkAction::Close);
        assert_eq!(session.state(), PjLinkSessionState::Closed);
        assert!(handler.seen.is_empty());
    }
}

#[test]
fn line_without_header_is_no_request_after_authentication() {
    let mut handler = FixedHandler::new(PjLinkResponse::Okay, None);
    let mut session = PjLinkSession::new(6);
    session.greet_with(Some(String::from("JBMIA")), 0x0123_4567);
    assert_eq!(
        session.handle_line(&mut handler, b"95b5d186e7218733e0584aeff9d57bdf%1POWR ?"),
        PjLinkAction::Reply(b"%1POWR=OK\r".to_vec())
    );
    assert_eq!(
        session.handle_line(&mut handler, b"95b5d186e7218733e0584aeff9d57bdf%1POWR ?"),
        PjLinkAction::Close
    );
    assert_eq!(session.state(), PjLinkSessionState::Closed);
}

#[test]
fn wrong_separator_still_parses() {
    let mut handler = projector(None);
    let mut session = PjLinkSession::new(0);
    session.greet(&mut handler);
    assert_eq!(
        session.handle_line(&mut handler, b"%1POWR\t?"),
        PjLinkAction::Reply(b"%1POWR=0\r".to_vec())
    );
}

#[test]
fn receive_hands_out_the_request() {
    let mut session = PjLinkSession::new(0);
    session.greet_with(None, 0);
    match session.receive(b"%1NAME ?") {
        PjLinkAdmission::Request(request, command) => {
            assert_eq!(request, PjLinkRawPayload::new_command(*b"1NAME", vec![b'?']));
            assert_eq!(command, PjLinkCommand::Name1);
            assert_eq!(
                session.respond(request, PjLinkResponse::Multiple(b"p1".to_vec())),
                b"%1NAME=p1\r".to_vec()
            );
        }
        _ => panic!("no request"),
    }
    assert!(matches!(session.receive(b"nothing"), PjLinkAdmission::Dropped));
    assert_eq!(session.state(), PjLinkSessionState::Closed);
}

#[test]
fn receive_refuses_a_wrong_hash() {
    let mut session = PjLinkSession::new(0);
    session.greet_with(Some(String::from("JBMIA")), 0x0123_4567);
    assert!(matches!(
        session.receive(b"ffffffffffffffffffffffffffffffff%1POWR ?"),
        PjLinkAdmission::Refused
    ));
    assert_eq!(session.state(), PjLinkSessionState::Closed);
}

#[test]
fn zero_tail_of_a_response_gives_way_to_the_terminator() {
    let mut handler = FixedHandler::new(PjLinkResponse::Multiple(b"name\0".to_vec()), None);
    let mut session = PjLinkSession::new(1);
    session.greet(&mut handler);
    assert_eq!(
        session.handle_line(&mut handler, b"%1NAME ?"),
        PjLinkAction::Reply(b"%1NAME=name\r".to_vec())
    );
}

#[test]
fn salt_is_kept_for_the_session() {
    let mut session = PjLinkSession::new(2);
    assert_eq!(session.password_salt(), None);
    session.greet_with(Some(String::from("JBMIA")), 0x0a0b_0c0d);
    assert_eq!(session.password_salt(), Some(b"0A0B0C0D".to_vec()));
    let mut open_session = PjLinkSession::new(3);
    open_session.greet_with(None, 0x0a0b_0c0d);
    assert_eq!(open_session.password_salt(), None);
}

#[test]
fn body_that_is_not_ascii_closes_without_answer() {
    let mut handler = FixedHandler::new(PjLinkResponse::Undefined, None);
    let mut session = PjLinkSession::new(1);
    session.greet(&mut handler);
    assert_eq!(
        session.handle_line(&mut handler, &[b'%', b'1', 0xc3, 0xa9, b'W', b'R', b' ', b'?']),
        PjLinkAction::Close
    );
    assert_eq!(session.state(), PjLinkSessionState::Closed);
    assert!(handler.seen.is_empty());
}

#[test]
fn parameter_that_is_not_ascii_is_handed_on() {
    let mut handler = FixedHandler::new(PjLinkResponse::OutOfParameter, None);
    let mut session = PjLinkSession::new(1);
    session.greet(&mut handler);
    assert_eq!(
        session.handle_line(&mut handler, &[b'%', b'1', b'P', b'O', b'W', b'R', b' ', 0xff]),
        PjLinkAction::Reply(b"%1POWR=ERR2\r".to_vec())
    );
    assert_eq!(handler.seen.len(), 1);
}
