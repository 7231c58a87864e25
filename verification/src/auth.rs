//! Challenge-response authentication: the prologues that open a session
//! and the check of the password hash that a client offers.

use vstd::prelude::*;
use vstd::slice::slice_to_vec;
use vstd::utf8::encode_utf8;
use crate::hex::{format_lower_hex, format_upper_hex_u32, hex_digit, lower_hex, upper_hex_u32};
use crate::wire::{
    PJLINK_NULLIFIED_SECURITY,
    PJLINK_SECURITY,
    PJLINK_SECURITY_ERRA,
    PJLINK_TERMINATOR,
};

verus! {

/// Number of bytes of a password hash as a client offers it: the
/// lower-case digits of a digest of sixteen bytes.
pub const PJLINK_PASSWORD_HASH_LENGTH: usize = 32;

/// The MD5 digest of a byte string.
pub uninterp spec fn md5_digest(data: Seq<u8>) -> Seq<u8>;

/// Calls `md5::compute` and hands out the sixteen bytes of the digest it
/// returns. The digest is a function of the data alone; that it is the
/// MD5 digest is taken on trust.
#[verifier::external_body]
pub(crate) fn md5_compute(data: &[u8]) -> (digest: [u8; 16])
    ensures
        digest@ == md5_digest(data@),
{
    md5::compute(data).0
}

/// Draws a number from `rand::thread_rng` with `RngCore::next_u32`.
/// Nothing is known of the number. The generator stops the thread where
/// the system gives it no entropy to start from.
#[verifier::external_body]
pub(crate) fn generate_random_number() -> u32 {
    rand::RngCore::next_u32(&mut rand::thread_rng())
}

/// The prologue that asks for a password: `PJLINK 1 `, the salt and the
/// terminator.
pub open spec fn challenge_prologue(salt: Seq<u8>) -> Seq<u8> {
    PJLINK_SECURITY@ + salt + seq![PJLINK_TERMINATOR]
}

/// The bytes that are hashed to check a password: the salt and then the
/// password, with nothing between them.
pub open spec fn salted_password(salt: Seq<u8>, password: Seq<char>) -> Seq<u8> {
    salt + encode_utf8(password)
}

/// Whether a line opens with the hash that a digest asks for: its first
/// 32 bytes are the lower-case digits of the digest.
pub open spec fn hash_accepted(line: Seq<u8>, digest: Seq<u8>) -> bool {
    &&& line.len() >= PJLINK_PASSWORD_HASH_LENGTH
    &&& line.subrange(0, PJLINK_PASSWORD_HASH_LENGTH as int) == lower_hex(digest)
}

/// Appends the prologue of a session without password.
pub fn generate_nullified_security(buffer: &mut Vec<u8>)
    ensures
        final(buffer)@ == old(buffer)@ + PJLINK_NULLIFIED_SECURITY@,
{
    let mut prologue = slice_to_vec(PJLINK_NULLIFIED_SECURITY);
    buffer.append(&mut prologue);
}

/// Appends the prologue of a session with password, for the given salt.
pub fn generate_password_security(buffer: &mut Vec<u8>, number: &[u8])
    ensures
        final(buffer)@ == old(buffer)@ + challenge_prologue(number@),
{
    let mut start = slice_to_vec(PJLINK_SECURITY);
    let mut salt = slice_to_vec(number);
    buffer.append(&mut start);
    buffer.append(&mut salt);
    buffer.push(PJLINK_TERMINATOR);
    assert(buffer@ =~= old(buffer)@ + challenge_prologue(number@));
}

/// The line that refuses a password hash.
pub fn generate_security_error() -> (buffer: Vec<u8>)
    ensures
        buffer@ == PJLINK_SECURITY_ERRA@,
{
    slice_to_vec(PJLINK_SECURITY_ERRA)
}

/// Opens a session: gives the prologue to write, whether the session
/// asks for a password, and the salt if it does. Without password the
/// prologue is the nullified one. With a password the salt is
/// `random_number` in eight upper-case digits, and the prologue carries
/// it.
pub fn handle_password_input(password: &Option<String>, random_number: u32) -> (opening: (
    Vec<u8>,
    bool,
    Option<Vec<u8>>,
))
    ensures
        opening.1 == password is Some,
        password is None ==> opening.0@ == PJLINK_NULLIFIED_SECURITY@ && opening.2 is None,
        password is Some ==> opening.0@ == challenge_prologue(upper_hex_u32(random_number))
            && opening.2 is Some && opening.2->0@ == upper_hex_u32(random_number),
{
    let mut auth_buffer: Vec<u8> = Vec::new();
    if password.is_none() {
        generate_nullified_security(&mut auth_buffer);
        assert(auth_buffer@ =~= PJLINK_NULLIFIED_SECURITY@);
        (auth_buffer, false, None)
    } else {
        let string_salt = format_upper_hex_u32(random_number);
        generate_password_security(&mut auth_buffer, string_salt.as_slice());
        assert(auth_buffer@ =~= challenge_prologue(upper_hex_u32(random_number)));
        (auth_buffer, true, Some(string_salt))
    }
}

/// The digest that a client has to offer for a salt and a password.
pub fn password_digest(password_salt: &[u8], password: &str) -> (digest: [u8; 16])
    ensures
        digest@ == md5_digest(salted_password(password_salt@, password@)),
{
    let mut internal_password = slice_to_vec(password_salt);
    let mut password_bytes = slice_to_vec(password.as_bytes());
    internal_password.append(&mut password_bytes);
    md5_compute(internal_password.as_slice())
}

/// Whether a line opens with the hash that `digest` asks for. Every one
/// of the 32 bytes is compared, whatever the earlier ones were.
pub fn check_password_hash(line: &[u8], digest: &[u8; 16]) -> (accepted: bool)
    ensures
        accepted == hash_accepted(line@, digest@),
{
    if line.len() < PJLINK_PASSWORD_HASH_LENGTH {
        return false;
    }
    let expected = format_lower_hex(digest.as_slice());
    let mut accepted = true;
    let mut index: usize = 0;
    assert(line@.subrange(0, 0) =~= expected@.subrange(0, 0));
    while index < PJLINK_PASSWORD_HASH_LENGTH
        invariant
            index <= PJLINK_PASSWORD_HASH_LENGTH <= line.len(),
            expected@ == lower_hex(digest@),
            expected@.len() == PJLINK_PASSWORD_HASH_LENGTH,
            accepted == (line@.subrange(0, index as int) == expected@.subrange(0, index as int)),
        decreases PJLINK_PASSWORD_HASH_LENGTH - index,
    {
        let ghost seen = line@.subrange(0, index as int);
        let ghost want = expected@.subrange(0, index as int);
        let ghost seen_next = line@.subrange(0, index + 1);
        let ghost want_next = expected@.subrange(0, index + 1);
        assert(seen_next =~= seen.push(line@[index as int]));
        assert(want_next =~= want.push(expected@[index as int]));
        assert(seen_next == want_next ==> seen == want) by {
            if seen_next == want_next {
                assert(seen =~= seen_next.drop_last());
                assert(want =~= want_next.drop_last());
            }
        }
        assert(seen_next == want_next ==> line@[index as int] == expected@[index as int]) by {
            if seen_next == want_next {
                assert(seen_next[index as int] == want_next[index as int]);
            }
        }
        if line[index] != expected[index] {
            accepted = false;
        }
        index += 1;
    }
    assert(expected@.subrange(0, index as int) =~= expected@);
    accepted
}

/// Checks the line that answers a challenge. Where the line opens with
/// the hash of the salt and the password, the hash is taken off the
/// buffer and what follows it is left, to be read as the first request.
/// Otherwise the buffer is left as it was.
pub fn handle_password_hash_response(
    input_command_buffer: &mut Vec<u8>,
    password: &str,
    password_salt: &[u8],
) -> (accepted: bool)
    ensures
        accepted == hash_accepted(
            old(input_command_buffer)@,
            md5_digest(salted_password(password_salt@, password@)),
        ),
        accepted ==> final(input_command_buffer)@ == old(input_command_buffer)@.skip(
            PJLINK_PASSWORD_HASH_LENGTH as int,
        ),
        !accepted ==> final(input_command_buffer)@ == old(input_command_buffer)@,
{
    let digest = password_digest(password_salt, password);
    let accepted = check_password_hash(input_command_buffer.as_slice(), &digest);
    if accepted {
        let request = input_command_buffer.split_off(PJLINK_PASSWORD_HASH_LENGTH);
        *input_command_buffer = request;
        assert(input_command_buffer@ =~= old(input_command_buffer)@.skip(
            PJLINK_PASSWORD_HASH_LENGTH as int,
        ));
    }
    accepted
}

/// The salt of a challenge is eight upper-case hexadecimal digits, and
/// the challenge that carries it is eighteen bytes long.
pub proof fn lemma_challenge_shape(random_number: u32)
    ensures
        upper_hex_u32(random_number).len() == 8,
        forall|index: int|
            0 <= index < 8 ==> {
                let digit = #[trigger] upper_hex_u32(random_number)[index];
                ||| '0' as u8 <= digit <= '9' as u8
                ||| 'A' as u8 <= digit <= 'F' as u8
            },
        challenge_prologue(upper_hex_u32(random_number)).len() == 18,
{
}

/// A number is the sum of its eight hexadecimal digits, each at its
/// place.
#[verifier::rlimit(40)]
proof fn lemma_number_of_digits(number: int)
    requires
        0 <= number < 0x1_0000_0000,
    ensures
        number == (number / 0x1000_0000 % 16) * 0x1000_0000 + (number / 0x100_0000 % 16)
            * 0x100_0000 + (number / 0x10_0000 % 16) * 0x10_0000 + (number / 0x1_0000 % 16)
            * 0x1_0000 + (number / 0x1000 % 16) * 0x1000 + (number / 0x100 % 16) * 0x100 + (number
            / 0x10 % 16) * 0x10 + number % 16,
{
    let n1 = number / 0x10;
    let n2 = n1 / 0x10;
    let n3 = n2 / 0x10;
    let n4 = n3 / 0x10;
    let n5 = n4 / 0x10;
    let n6 = n5 / 0x10;
    let n7 = n6 / 0x10;
    assert(n2 == number / 0x100);
    assert(n3 == number / 0x1000);
    assert(n4 == number / 0x1_0000);
    assert(n5 == number / 0x10_0000);
    assert(n6 == number / 0x100_0000);
    assert(n7 == number / 0x1000_0000);
    assert(n7 < 16);
}

/// Two values below sixteen with the same upper-case digit are equal.
proof fn lemma_digits_differ(first: int, second: int)
    requires
        0 <= first < 16,
        0 <= second < 16,
        hex_digit(first, true) == hex_digit(second, true),
    ensures
        first == second,
{
}

/// Two numbers that differ give salts that differ.
#[verifier::rlimit(40)]
pub proof fn lemma_salts_differ(first: u32, second: u32)
    requires
        first != second,
    ensures
        upper_hex_u32(first) != upper_hex_u32(second),
{
    let a = upper_hex_u32(first);
    let b = upper_hex_u32(second);
    if a == b {
        let x = first as int;
        let y = second as int;
        assert(a[0] == b[0] && a[1] == b[1] && a[2] == b[2] && a[3] == b[3]);
        assert(a[4] == b[4] && a[5] == b[5] && a[6] == b[6] && a[7] == b[7]);
        lemma_digits_differ(x / 0x1000_0000 % 16, y / 0x1000_0000 % 16);
        lemma_digits_differ(x / 0x100_0000 % 16, y / 0x100_0000 % 16);
        lemma_digits_differ(x / 0x10_0000 % 16, y / 0x10_0000 % 16);
        lemma_digits_differ(x / 0x1_0000 % 16, y / 0x1_0000 % 16);
        lemma_digits_differ(x / 0x1000 % 16, y / 0x1000 % 16);
        lemma_digits_differ(x / 0x100 % 16, y / 0x100 % 16);
        lemma_digits_differ(x / 0x10 % 16, y / 0x10 % 16);
        lemma_digits_differ(x % 16, y % 16);
        lemma_number_of_digits(x);
        lemma_number_of_digits(y);
    }
}

} // verus!
