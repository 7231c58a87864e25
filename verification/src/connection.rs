//! What a server keeps apart from the sessions: the numbering of the
//! connections, and the cutting of a byte stream into lines.

use vstd::prelude::*;
use crate::wire::PJLINK_TERMINATOR;

verus! {

/// Hands out the numbers of the connections: zero first, then one more
/// for every connection. After `u64::MAX` the numbers start again at
/// zero.
pub struct PjLinkConnectionCounter {
    next: u64,
}

/// The number that follows `number`.
pub open spec fn following(number: u64) -> u64 {
    if number == u64::MAX {
        0
    } else {
        (number + 1) as u64
    }
}

/// The number that a counter with `next` as its next number hands out at
/// its call number `calls`, counted from zero.
pub open spec fn number_at(next: u64, calls: nat) -> u64
    decreases calls,
{
    if calls == 0 {
        next
    } else {
        number_at(following(next), (calls - 1) as nat)
    }
}

impl PjLinkConnectionCounter {
    /// The number that the next connection gets.
    pub closed spec fn next(&self) -> u64 {
        self.next
    }

    /// A counter that starts at zero.
    pub fn new() -> (counter: PjLinkConnectionCounter)
        ensures
            counter.next() == 0,
    {
        PjLinkConnectionCounter { next: 0 }
    }

    /// Numbers one more connection.
    pub fn allocate(&mut self) -> (connection_id: u64)
        ensures
            connection_id == old(self).next(),
            final(self).next() == following(old(self).next()),
    {
        let connection_id = self.next;
        self.next = self.next.wrapping_add(1);
        connection_id
    }
}

/// Takes one more byte of a stream into the line that is being read.
/// The terminator completes the line and is not kept; any other byte is
/// appended. So a line that is put together byte by byte never holds the
/// terminator.
pub fn read_command_byte(input_command_buffer: &mut Vec<u8>, byte: u8) -> (complete: bool)
    ensures
        complete == (byte == PJLINK_TERMINATOR),
        complete ==> final(input_command_buffer)@ == old(input_command_buffer)@,
        !complete ==> final(input_command_buffer)@ == old(input_command_buffer)@.push(byte),
        !old(input_command_buffer)@.contains(PJLINK_TERMINATOR)
            ==> !final(input_command_buffer)@.contains(PJLINK_TERMINATOR),
{
    if byte == PJLINK_TERMINATOR {
        true
    } else {
        input_command_buffer.push(byte);
        proof {
            let before = old(input_command_buffer)@;
            let after = input_command_buffer@;
            if !before.contains(PJLINK_TERMINATOR) && after.contains(PJLINK_TERMINATOR) {
                let at = choose|at: int| 0 <= at < after.len() && after[at] == PJLINK_TERMINATOR;
                if at < before.len() {
                    assert(before[at] == after[at]);
                    assert(before.contains(PJLINK_TERMINATOR));
                }
            }
        }
        false
    }
}

/// As long as the numbers do not start again at zero, a call hands out
/// its own count above the first number.
pub proof fn lemma_number_at(next: u64, calls: nat)
    requires
        next + calls <= u64::MAX,
    ensures
        number_at(next, calls) == next + calls,
    decreases calls,
{
    if calls > 0 {
        lemma_number_at(following(next), (calls - 1) as nat);
    }
}

/// Connection numbers rise strictly, and no two connections get the same
/// number, as long as the numbers do not start again at zero.
pub proof fn lemma_connection_ids_increase(next: u64, earlier: nat, later: nat)
    requires
        earlier < later,
        next + later <= u64::MAX,
    ensures
        number_at(next, earlier) < number_at(next, later),
{
    lemma_number_at(next, earlier);
    lemma_number_at(next, later);
}

} // verus!
