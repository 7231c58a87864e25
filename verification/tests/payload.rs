use pjlink_bridge::{
    PjLinkFramingError, PjLinkRawPayload, PjLinkResponse, PJLINK_COMMAND_SEPARATOR,
    PJLINK_HEADER, PJLINK_QUERY, PJLINK_RESPONSE_SEPARATOR, PJLINK_TERMINATOR,
};

#[test]
fn wire_constants_have_their_values() {
    assert_eq!(PJLINK_HEADER, b'%');
    assert_eq!(PJLINK_COMMAND_SEPARATOR, b' ');
    assert_eq!(PJLINK_RESPONSE_SEPARATOR, b'=');
    assert_eq!(PJLINK_TERMINATOR, b'\r');
    assert_eq!(PJLINK_QUERY, b'?');
    assert_eq!(pjlink_bridge::PJLINK_QUERY_CHAR, '?');
    assert_eq!(pjlink_bridge::PJLINK_BROADCAST_MESSAGE_ACKN, b"2ACKN");
    assert_eq!(pjlink_bridge::PJLINK_BROADCAST_MESSAGE_LKUP, b"2LKUP");
    assert_eq!(pjlink_bridge::PJLINK_BROADCAST_MESSAGE_ERST, b"2ERST");
    assert_eq!(pjlink_bridge::PJLINK_BROADCAST_MESSAGE_POWR, b"2POWR");
    assert_eq!(pjlink_bridge::PJLINK_BROADCAST_MESSAGE_INPT, b"2INPT");
    assert_eq!(pjlink_bridge::PJLINK_MAX_BROADCAST_BUFFER_SIZE, 25);
    assert_eq!(pjlink_bridge::wire::PJLINK_NULLIFIED_SECURITY, b"PJLINK 0\r");
    assert_eq!(pjlink_bridge::wire::PJLINK_SECURITY, b"PJLINK 1 ");
    assert_eq!(pjlink_bridge::wire::PJLINK_SECURITY_ERRA, b"PJLINK ERRA\r");
    assert_eq!(pjlink_bridge::wire::PJLINK_BROADCAST_SEARCH_START, b"%2SRCH\r");
}

#[test]
fn status_codes_have_their_values() {
    assert_eq!(pjlink_bridge::PjLinkPowerCommandStatus::Off, b'0');
    assert_eq!(pjlink_bridge::PjLinkPowerCommandStatus::On, b'1');
    assert_eq!(pjlink_bridge::PjLinkPowerCommandStatus::Cooling, b'2');
    assert_eq!(pjlink_bridge::PjLinkPowerCommandStatus::WarmUp, b'3');
    assert_eq!(pjlink_bridge::PjLinkClassCommandStatus::Class1, b'1');
    assert_eq!(pjlink_bridge::PjLinkClassCommandStatus::Class2, b'2');
    assert_eq!(pjlink_bridge::PjLinkErrorStatusCommandStatusItem::Normal, b'0');
    assert_eq!(pjlink_bridge::PjLinkErrorStatusCommandStatusItem::Warning, b'1');
    assert_eq!(pjlink_bridge::PjLinkErrorStatusCommandStatusItem::Error, b'2');
    assert_eq!(pjlink_bridge::PjLinkInputCommandStatus::RGB, b'1');
    assert_eq!(pjlink_bridge::PjLinkInputCommandStatus::Video, b'2');
    assert_eq!(pjlink_bridge::PjLinkInputCommandStatus::Digital, b'3');
    assert_eq!(pjlink_bridge::PjLinkInputCommandStatus::Storage, b'4');
    assert_eq!(pjlink_bridge::PjLinkInputCommandStatus::Network, b'5');
    assert_eq!(pjlink_bridge::PjLinkInputCommandStatus::Internal, b'6');
    assert_eq!(pjlink_bridge::PjLinkMuteCommandStatus::Video, b'1');
    assert_eq!(pjlink_bridge::PjLinkMuteCommandStatus::Audio, b'2');
    assert_eq!(pjlink_bridge::PjLinkMuteCommandStatus::AudioAndVideo, b'3');
    assert_eq!(pjlink_bridge::PjLinkMuteCommandStatus::Mute, b'1');
    assert_eq!(pjlink_bridge::PjLinkMuteCommandStatus::NonMute, b'0');
    assert_eq!(pjlink_bridge::PjLinkInputResolutionCommandStatus::NoSignal, b'-');
    assert_eq!(pjlink_bridge::PjLinkInputResolutionCommandStatus::Unknown, b'*');
    assert_eq!(pjlink_bridge::PjLinkFreezeCommandStatus::Freezed, b'1');
    assert_eq!(pjlink_bridge::PjLinkFreezeCommandStatus::Unfreezed, b'0');
}

#[test]
fn new_command_uses_the_command_separator() {
    let payload = PjLinkRawPayload::new_command(*b"1POWR", vec![PJLINK_QUERY]);
    assert_eq!(payload.command_body_with_class, *b"1POWR");
    assert_eq!(payload.separator, 0x20);
    assert_eq!(payload.transmission_parameter, vec![b'?']);
}

#[test]
fn new_response_uses_the_response_separator() {
    let payload = PjLinkRawPayload::new_response(*b"1POWR", vec![b'0']);
    assert_eq!(payload.command_body_with_class, *b"1POWR");
    assert_eq!(payload.separator, 0x3d);
    assert_eq!(payload.transmission_parameter, vec![b'0']);
}

#[test]
fn from_buffer_splits_a_line() {
    let mut buffer = b"%1INPT 32".to_vec();
    let payload = PjLinkRawPayload::from_buffer(&mut buffer, &3).unwrap();
    assert_eq!(payload.command_body_with_class, *b"1INPT");
    assert_eq!(payload.separator, b' ');
    assert_eq!(payload.transmission_parameter, b"32".to_vec());
    assert_eq!(buffer, b"%1INPT 32".to_vec());
}

#[test]
fn from_buffer_accepts_an_empty_parameter() {
    let mut buffer = b"%2SVER=".to_vec();
    let payload = PjLinkRawPayload::from_buffer(&mut buffer, &0).unwrap();
    assert_eq!(payload.command_body_with_class, *b"2SVER");
    assert_eq!(payload.separator, b'=');
    assert!(payload.transmission_parameter.is_empty());
}

#[test]
fn from_buffer_refuses_a_missing_header() {
    let mut buffer = b"1POWR ?xx".to_vec();
    assert_eq!(
        PjLinkRawPayload::from_buffer(&mut buffer, &0),
        Err(PjLinkFramingError::MissingHeader)
    );
    let mut empty: Vec<u8> = Vec::new();
    assert_eq!(
        PjLinkRawPayload::from_buffer(&mut empty, &0),
        Err(PjLinkFramingError::MissingHeader)
    );
    assert_eq!(
        PjLinkRawPayload::from_line(b"PJLINK"),
        Err(PjLinkFramingError::MissingHeader)
    );
}

#[test]
fn from_buffer_refuses_a_short_line() {
    let mut buffer = b"%1POWR".to_vec();
    assert_eq!(
        PjLinkRawPayload::from_buffer(&mut buffer, &0),
        Err(PjLinkFramingError::TooShort)
    );
    assert_eq!(
        PjLinkRawPayload::from_line(b"%"),
        Err(PjLinkFramingError::TooShort)
    );
}

#[test]
fn write_to_buffer_frames_the_line() {
    let response = PjLinkRawPayload::new_response(*b"2FREZ", b"OK".to_vec());
    assert_eq!(
        PjLinkRawPayload::write_to_buffer(response),
        b"%2FREZ=OK\r".to_vec()
    );
    let request = PjLinkRawPayload::new_command(*b"1INPT", b"32".to_vec());
    assert_eq!(
        PjLinkRawPayload::write_to_buffer(request),
        b"%1INPT 32\r".to_vec()
    );
    let empty = PjLinkRawPayload::new_response(*b"2SVER", Vec::new());
    assert_eq!(PjLinkRawPayload::write_to_buffer(empty), b"%2SVER=\r".to_vec());
}

#[test]
fn write_to_buffer_replaces_a_zero_tail() {
    let response = PjLinkRawPayload::new_response(*b"1NAME", b"abc\0".to_vec());
    assert_eq!(
        PjLinkRawPayload::write_to_buffer(response),
        b"%1NAME=abc\r".to_vec()
    );
    let two = PjLinkRawPayload::new_response(*b"1NAME", b"abc\0\0".to_vec());
    assert_eq!(
        PjLinkRawPayload::write_to_buffer(two),
        b"%1NAME=abc\0\r".to_vec()
    );
    let only = PjLinkRawPayload::new_response(*b"1NAME", vec![0]);
    assert_eq!(PjLinkRawPayload::write_to_buffer(only), b"%1NAME=\r".to_vec());
}

#[test]
fn write_to_buffer_keeps_a_zero_separator_of_an_empty_parameter() {
    let odd = PjLinkRawPayload {
        command_body_with_class: *b"1NAME",
        separator: 0,
        transmission_parameter: Vec::new(),
    };
    assert_eq!(
        PjLinkRawPayload::write_to_buffer(odd),
        b"%1NAME\0\r".to_vec()
    );
}

#[test]
fn line_length_is_framing_plus_parameter() {
    let parameter = b"1920x1080".to_vec();
    let response = PjLinkRawPayload::new_response(*b"2IRES", parameter.clone());
    let wire = PjLinkRawPayload::write_to_buffer(response);
    assert_eq!(wire.len(), 1 + 5 + 1 + parameter.len() + 1);
}

#[test]
fn every_line_ends_with_one_terminator() {
    for parameter in [&b""[..], &b"0"[..], &b"OK"[..], &b"ERR1"[..], &b"x\0"[..]] {
        let response = PjLinkRawPayload::new_response(*b"1POWR", parameter.to_vec());
        let wire = PjLinkRawPayload::write_to_buffer(response);
        assert_eq!(wire.last(), Some(&PJLINK_TERMINATOR));
        assert_eq!(wire.iter().filter(|byte| **byte == PJLINK_TERMINATOR).count(), 1);
    }
}

#[test]
fn parse_inverts_serialize() {
    let written = PjLinkRawPayload::new_command(*b"2INNM", b"?3A".to_vec());
    let mut wire = PjLinkRawPayload::write_to_buffer(written.clone());
    assert_eq!(wire.pop(), Some(PJLINK_TERMINATOR));
    let parsed = PjLinkRawPayload::from_buffer(&mut wire, &0).unwrap();
    assert_eq!(parsed, written);
}

#[test]
fn round_trip_settles_a_zero_tail_once() {
    let written = PjLinkRawPayload::new_response(*b"1NAME", b"abc\0".to_vec());
    let mut wire = PjLinkRawPayload::write_to_buffer(written);
    assert_eq!(wire.pop(), Some(PJLINK_TERMINATOR));
    let first = PjLinkRawPayload::from_buffer(&mut wire, &0).unwrap();
    assert_eq!(first.transmission_parameter, b"abc".to_vec());
    let mut again = PjLinkRawPayload::write_to_buffer(first.clone());
    assert_eq!(again.pop(), Some(PJLINK_TERMINATOR));
    let second = PjLinkRawPayload::from_buffer(&mut again, &0).unwrap();
    assert_eq!(second, first);
}

#[test]
fn update_with_response_keeps_the_body() {
    let request = PjLinkRawPayload::new_command(*b"1POWR", vec![b'?']);
    let answer = request.update_with_response(PjLinkResponse::Single(b'0'), &1);
    assert_eq!(answer.command_body_with_class, *b"1POWR");
    assert_eq!(answer.separator, b'=');
    assert_eq!(answer.transmission_parameter, vec![b'0']);
}

#[test]
fn update_with_response_renders_every_response() {
    let cases: Vec<(PjLinkResponse, &[u8])> = vec![
        (PjLinkResponse::Okay, b"OK"),
        (PjLinkResponse::Undefined, b"ERR1"),
        (PjLinkResponse::OutOfParameter, b"ERR2"),
        (PjLinkResponse::UnavailableTime, b"ERR3"),
        (PjLinkResponse::ProjectorOrDisplayFailure, b"ERR4"),
        (PjLinkResponse::Single(b'7'), b"7"),
        (PjLinkResponse::Multiple(b"2B".to_vec()), b"2B"),
        (PjLinkResponse::Multiple(Vec::new()), b""),
        (PjLinkResponse::Empty, b""),
    ];
    for (response, parameter) in cases {
        let request = PjLinkRawPayload::new_command(*b"2INPT", vec![b'?']);
        let answer = request.update_with_response(response, &9);
        assert_eq!(answer.command_body_with_class, *b"2INPT");
        assert_eq!(answer.separator, PJLINK_RESPONSE_SEPARATOR);
        assert_eq!(answer.transmission_parameter, parameter.to_vec());
    }
}

#[test]
fn clone_of_a_payload_is_equal() {
    let payload = PjLinkRawPayload::new_command(*b"1AVMT", b"31".to_vec());
    assert_eq!(payload.clone(), payload);
}
