use pjlink_bridge::{read_command_byte, PjLinkConnectionCounter};

#[test]
fn connection_ids_start_at_zero_and_rise() {
    let mut counter = PjLinkConnectionCounter::new();
    let mut previous = counter.allocate();
    assert_eq!(previous, 0);
    for expected in 1..100u64 {
        let next = counter.allocate();
        assert_eq!(next, expected);
        assert!(next > previous);
        previous = next;
    }
}

#[test]
fn terminator_completes_a_line() {
    let mut buffer = Vec::new();
    let mut lines: Vec<Vec<u8>> = Vec::new();
    for byte in b"%1POWR ?\r%1CLSS ?\r\rrest" {
        if read_command_byte(&mut buffer, *byte) {
            lines.push(buffer.clone());
            buffer.clear();
        }
    }
    assert_eq!(
        lines,
        vec![b"%1POWR ?".to_vec(), b"%1CLSS ?".to_vec(), Vec::new()]
    );
    assert_eq!(buffer, b"rest".to_vec());
}

#[test]
fn other_bytes_are_appended() {
    let mut buffer = b"ab".to_vec();
    assert!(!read_command_byte(&mut buffer, b'c'));
    assert_eq!(buffer, b"abc".to_vec());
    assert!(!read_command_byte(&mut buffer, b'\n'));
    assert_eq!(buffer, b"abc\n".to_vec());
    assert!(read_command_byte(&mut buffer, b'\r'));
    assert_eq!(buffer, b"abc\n".to_vec());
}
