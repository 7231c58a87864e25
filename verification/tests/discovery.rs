use pjlink_bridge::discovery::{
    handle_datagram, is_search_request, read_message, search_acknowledgement,
};

#[test]
fn message_ends_with_the_first_terminator() {
    assert_eq!(read_message(b"%2SRCH\r"), b"%2SRCH\r".to_vec());
    assert_eq!(read_message(b"%2SRCH\rmore\r"), b"%2SRCH\r".to_vec());
    assert_eq!(read_message(b"\r%2SRCH\r"), b"\r".to_vec());
    assert_eq!(read_message(b"%2SRCH"), b"%2SRCH".to_vec());
    assert_eq!(read_message(b""), Vec::<u8>::new());
}

#[test]
fn search_is_recognised() {
    assert!(is_search_request(b"%2SRCH\r"));
    assert!(is_search_request(b"%2SRCH\r\0\0\0\0\0\0\0\0\0\0\0\0\0\0\0\0\0\0"));
    assert!(is_search_request(b"%2SRCH\r%2SRCH\r"));
}

#[test]
fn other_datagrams_are_no_search() {
    assert!(!is_search_request(b"%2SRCH"));
    assert!(!is_search_request(b"%2SRCH \r"));
    assert!(!is_search_request(b"%1SRCH\r"));
    assert!(!is_search_request(b" %2SRCH\r"));
    assert!(!is_search_request(b"%2srch\r"));
    assert!(!is_search_request(b""));
    assert!(!is_search_request(b"\r"));
    assert!(!is_search_request(b"%2ACKN=aa:bb:cc:dd:ee:ff\r"));
}

#[test]
fn acknowledgement_carries_the_address() {
    assert_eq!(
        search_acknowledgement(Some([0xaa, 0xbb, 0xcc, 0xdd, 0xee, 0xff])),
        b"%2ACKN=aa:bb:cc:dd:ee:ff\r".to_vec()
    );
    assert_eq!(
        search_acknowledgement(Some([0x00, 0x1b, 0x44, 0x11, 0x3a, 0xb7])),
        b"%2ACKN=00:1b:44:11:3a:b7\r".to_vec()
    );
}

#[test]
fn acknowledgement_without_address_carries_zeros() {
    assert_eq!(
        search_acknowledgement(None),
        b"%2ACKN=00:00:00:00:00:00\r".to_vec()
    );
}

#[test]
fn acknowledgement_fits_a_broadcast_datagram() {
    assert_eq!(
        search_acknowledgement(Some([1, 2, 3, 4, 5, 6])).len(),
        pjlink_bridge::PJLINK_MAX_BROADCAST_BUFFER_SIZE
    );
}

#[test]
fn search_datagram_is_acknowledged() {
    let reply = handle_datagram(b"%2SRCH\r").unwrap();
    assert_eq!(reply.len(), 25);
    assert_eq!(&reply[..7], b"%2ACKN=");
    assert_eq!(reply[24], b'\r');
    for (index, byte) in reply[7..24].iter().enumerate() {
        if index % 3 == 2 {
            assert_eq!(*byte, b':');
        } else {
            assert!(matches!(*byte, b'0'..=b'9' | b'a'..=b'f'));
        }
    }
}

#[test]
fn other_datagram_is_ignored() {
    assert_eq!(handle_datagram(b"%2LKUP=00:00:00:00:00:00\r"), None);
    assert_eq!(handle_datagram(b"%2SRCH"), None);
    assert_eq!(handle_datagram(b""), None);
}
