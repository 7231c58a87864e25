//! The discovery responder: recognises the search datagram of class 2 and
//! builds the acknowledgement that carries the hardware address.

use vstd::prelude::*;
use crate::hex::{colon_hex, format_colon_hex};
use crate::payload::{response_line, serialize_line, PjLinkRawPayload};
use crate::response::bytes_equal;
use crate::wire::{
    PJLINK_BROADCAST_MESSAGE_ACKN,
    PJLINK_BROADCAST_SEARCH_START,
    PJLINK_TERMINATOR,
};

verus! {

/// Asks `mac_address::get_mac_address` for the hardware address of the
/// first network device that has one, and hands out its six bytes.
/// `None` stands for no such device and for a failure of the lookup.
/// Nothing is known of the bytes: they depend on the machine.
#[verifier::external_body]
pub(crate) fn primary_mac_address() -> Option<[u8; 6]> {
    match mac_address::get_mac_address() {
        Ok(Some(address)) => Some(address.bytes()),
        Ok(None) => None,
        Err(_) => None,
    }
}

/// Place of the first terminator in a datagram, or the length of the
/// datagram where it holds none.
pub open spec fn first_terminator(datagram: Seq<u8>) -> int
    decreases datagram.len(),
{
    if datagram.len() == 0 || datagram[0] == PJLINK_TERMINATOR {
        0
    } else {
        1 + first_terminator(datagram.skip(1))
    }
}

/// The message that a datagram carries: its bytes up to the first
/// terminator, the terminator included; all of it where there is none.
pub open spec fn logical_message(datagram: Seq<u8>) -> Seq<u8> {
    if first_terminator(datagram) < datagram.len() {
        datagram.subrange(0, first_terminator(datagram) + 1)
    } else {
        datagram
    }
}

/// Whether a datagram asks for the projectors on the network: its
/// message is `%2SRCH` and the terminator, and nothing else.
pub open spec fn is_search(datagram: Seq<u8>) -> bool {
    logical_message(datagram) == PJLINK_BROADCAST_SEARCH_START@
}

/// The hardware address as the acknowledgement writes it; zeros where
/// there is none.
pub open spec fn address_text(address: Option<[u8; 6]>) -> Seq<u8> {
    match address {
        Some(bytes) => colon_hex(bytes@),
        None => colon_hex(seq![0u8, 0u8, 0u8, 0u8, 0u8, 0u8]),
    }
}

/// The acknowledgement of a search: the response line with the body
/// `2ACKN` and the hardware address as parameter.
pub open spec fn acknowledgement(address: Option<[u8; 6]>) -> Seq<u8> {
    serialize_line(response_line(PJLINK_BROADCAST_MESSAGE_ACKN@, address_text(address)))
}

/// The first terminator lies within the datagram or at its end, and no
/// byte before it is a terminator.
pub proof fn lemma_first_terminator(datagram: Seq<u8>)
    ensures
        0 <= first_terminator(datagram) <= datagram.len(),
        first_terminator(datagram) < datagram.len() ==> datagram[first_terminator(datagram)]
            == PJLINK_TERMINATOR,
        forall|index: int|
            0 <= index < first_terminator(datagram) ==> datagram[index] != PJLINK_TERMINATOR,
    decreases datagram.len(),
{
    if datagram.len() == 0 || datagram[0] == PJLINK_TERMINATOR {
    } else {
        let rest = datagram.skip(1);
        lemma_first_terminator(rest);
        assert forall|index: int| 0 <= index < first_terminator(datagram) implies datagram[index]
            != PJLINK_TERMINATOR by {
            if index > 0 {
                assert(rest[index - 1] == datagram[index]);
            }
        }
    }
}

/// Cuts the message out of a datagram.
pub fn read_message(datagram: &[u8]) -> (message: Vec<u8>)
    ensures
        message@ == logical_message(datagram@),
{
    let mut input_command: Vec<u8> = Vec::new();
    let mut index: usize = 0;
    proof {
        lemma_first_terminator(datagram@);
    }
    while index < datagram.len()
        invariant
            index <= datagram.len(),
            index <= first_terminator(datagram@) <= datagram.len(),
            input_command@ == datagram@.subrange(0, index as int),
            forall|at: int|
                0 <= at < first_terminator(datagram@) ==> datagram@[at] != PJLINK_TERMINATOR,
            first_terminator(datagram@) < datagram.len() ==> datagram@[first_terminator(
                datagram@,
            )] == PJLINK_TERMINATOR,
        decreases datagram.len() - index,
    {
        let byte = datagram[index];
        input_command.push(byte);
        assert(input_command@ =~= datagram@.subrange(0, index + 1));
        if byte == PJLINK_TERMINATOR {
            return input_command;
        }
        index += 1;
    }
    assert(input_command@ =~= datagram@);
    input_command
}

/// Whether a datagram asks for the projectors on the network.
pub fn is_search_request(datagram: &[u8]) -> (search: bool)
    ensures
        search == is_search(datagram@),
{
    let input_command = read_message(datagram);
    bytes_equal(input_command.as_slice(), PJLINK_BROADCAST_SEARCH_START)
}

/// Builds the acknowledgement of a search for a hardware address.
pub fn search_acknowledgement(address: Option<[u8; 6]>) -> (buffer: Vec<u8>)
    ensures
        buffer@ == acknowledgement(address),
{
    let mac_address = match address {
        Some(bytes) => format_colon_hex(&bytes),
        None => {
            let zeros: [u8; 6] = [0, 0, 0, 0, 0, 0];
            assert(zeros@ =~= seq![0u8, 0u8, 0u8, 0u8, 0u8, 0u8]);
            format_colon_hex(&zeros)
        },
    };
    let response = PjLinkRawPayload::new_response(*PJLINK_BROADCAST_MESSAGE_ACKN, mac_address);
    PjLinkRawPayload::write_to_buffer(response)
}

/// Answers one datagram: a search gets the acknowledgement with the
/// hardware address of this machine, any other datagram gets nothing.
pub fn handle_datagram(datagram: &[u8]) -> (reply: Option<Vec<u8>>)
    ensures
        reply is Some == is_search(datagram@),
        reply matches Some(buffer) ==> exists|address: Option<[u8; 6]>|
            buffer@ == #[trigger] acknowledgement(address),
{
    if is_search_request(datagram) {
        let address = primary_mac_address();
        let buffer = search_acknowledgement(address);
        assert(buffer@ == acknowledgement(address));
        Some(buffer)
    } else {
        None
    }
}

} // verus!
