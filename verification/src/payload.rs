//! The raw payload: one command or response line without its framing.

use vstd::prelude::*;
use vstd::slice::slice_to_vec;
use crate::response::PjLinkResponse;
use crate::wire::{
    PJLINK_COMMAND_SEPARATOR,
    PJLINK_HEADER,
    PJLINK_RESPONSE_SEPARATOR,
    PJLINK_TERMINATOR,
};

verus! {

/// One command or response line, without the header and the terminator
/// that frame it on the wire.
#[derive(Debug, PartialEq, Eq)]
pub struct PjLinkRawPayload {
    /// Class digit followed by the four bytes of the opcode.
    pub command_body_with_class: [u8; 5],
    /// Separator byte: a space in a request, `=` in a response.
    pub separator: u8,
    /// Transmission parameter: the bytes that follow the separator.
    pub transmission_parameter: Vec<u8>,
}

/// What a raw payload holds, as mathematical values.
pub struct PjLinkLine {
    /// Class digit and opcode: five bytes.
    pub body: Seq<u8>,
    /// Separator byte.
    pub separator: u8,
    /// Transmission parameter.
    pub parameter: Seq<u8>,
}

impl View for PjLinkRawPayload {
    type V = PjLinkLine;

    open spec fn view(&self) -> PjLinkLine {
        PjLinkLine {
            body: self.command_body_with_class@,
            separator: self.separator,
            parameter: self.transmission_parameter@,
        }
    }
}

/// Why a line is not a command or response line.
#[derive(Debug, Clone, Copy, PartialEq, Eq)]
pub enum PjLinkFramingError {
    /// The line is empty or does not start with the header byte.
    MissingHeader,
    /// The line starts with the header byte and ends before the separator.
    TooShort,
}

/// Number of bytes before the transmission parameter of a line: the
/// header, the command body with its class, and the separator.
pub const PJLINK_LINE_PREFIX_LENGTH: usize = 7;

/// What a line without its terminator holds, if it is well framed: it
/// starts with the header and has its five body bytes and its separator.
/// Any byte may stand as separator, and the parameter may be empty.
pub open spec fn parse_line(buffer: Seq<u8>) -> Result<PjLinkLine, PjLinkFramingError> {
    if buffer.len() == 0 || buffer[0] != PJLINK_HEADER {
        Err(PjLinkFramingError::MissingHeader)
    } else if buffer.len() < PJLINK_LINE_PREFIX_LENGTH {
        Err(PjLinkFramingError::TooShort)
    } else {
        Ok(
            PjLinkLine {
                body: buffer.subrange(1, 6),
                separator: buffer[6],
                parameter: buffer.skip(7),
            },
        )
    }
}

/// The outcome of parsing, with the payload as mathematical values.
pub open spec fn parsed_line(parsed: Result<PjLinkRawPayload, PjLinkFramingError>) -> Result<
    PjLinkLine,
    PjLinkFramingError,
> {
    match parsed {
        Ok(payload) => Ok(payload@),
        Err(error) => Err(error),
    }
}

/// The parameter as it leaves on the wire: where its last byte is zero,
/// that byte gives way to the terminator.
pub open spec fn settled_parameter(parameter: Seq<u8>) -> Seq<u8> {
    if parameter.len() > 0 && parameter.last() == 0 {
        parameter.drop_last()
    } else {
        parameter
    }
}

/// The line with a settled parameter.
pub open spec fn settled(line: PjLinkLine) -> PjLinkLine {
    PjLinkLine { parameter: settled_parameter(line.parameter), ..line }
}

/// The bytes of a line on the wire: the header, the body, the separator,
/// the settled parameter and the terminator.
pub open spec fn serialize_line(line: PjLinkLine) -> Seq<u8> {
    seq![PJLINK_HEADER] + line.body + seq![line.separator] + settled_parameter(line.parameter)
        + seq![PJLINK_TERMINATOR]
}

/// The line that answers a request with the given body.
pub open spec fn response_line(body: Seq<u8>, parameter: Seq<u8>) -> PjLinkLine {
    PjLinkLine { body, separator: PJLINK_RESPONSE_SEPARATOR, parameter }
}

impl Clone for PjLinkRawPayload {
    /// A copy that holds the same line.
    fn clone(&self) -> (copy: Self)
        ensures
            copy@ == self@,
    {
        PjLinkRawPayload {
            command_body_with_class: self.command_body_with_class,
            separator: self.separator,
            transmission_parameter: slice_to_vec(self.transmission_parameter.as_slice()),
        }
    }
}

impl PjLinkRawPayload {
    /// Builds a command line: the separator is a space.
    pub fn new_command(
        command_body_with_class: [u8; 5],
        transmission_parameter: Vec<u8>,
    ) -> (payload: PjLinkRawPayload)
        ensures
            payload.command_body_with_class == command_body_with_class,
            payload.separator == PJLINK_COMMAND_SEPARATOR,
            payload.transmission_parameter == transmission_parameter,
    {
        PjLinkRawPayload {
            command_body_with_class,
            separator: PJLINK_COMMAND_SEPARATOR,
            transmission_parameter,
        }
    }

    /// Builds a response line: the separator is `=`.
    pub fn new_response(
        command_body_with_class: [u8; 5],
        transmission_parameter: Vec<u8>,
    ) -> (payload: PjLinkRawPayload)
        ensures
            payload.command_body_with_class == command_body_with_class,
            payload.separator == PJLINK_RESPONSE_SEPARATOR,
            payload.transmission_parameter == transmission_parameter,
    {
        PjLinkRawPayload {
            command_body_with_class,
            separator: PJLINK_RESPONSE_SEPARATOR,
            transmission_parameter,
        }
    }

    /// Parses a line whose terminator has been taken off. The buffer is
    /// left as it was; `_connection_id` names the session and plays no part
    /// in the result.
    pub fn from_buffer(buffer: &mut Vec<u8>, _connection_id: &u64) -> (parsed: Result<
        PjLinkRawPayload,
        PjLinkFramingError,
    >)
        ensures
            *final(buffer) == *old(buffer),
            parsed_line(parsed) == parse_line(old(buffer)@),
    {
        Self::from_line(buffer.as_slice())
    }

    /// Parses a line whose terminator has been taken off.
    pub fn from_line(line: &[u8]) -> (parsed: Result<PjLinkRawPayload, PjLinkFramingError>)
        ensures
            parsed_line(parsed) == parse_line(line@),
    {
        if line.len() == 0 || line[0] != PJLINK_HEADER {
            return Err(PjLinkFramingError::MissingHeader);
        }
        if line.len() < PJLINK_LINE_PREFIX_LENGTH {
            return Err(PjLinkFramingError::TooShort);
        }
        let command_body_with_class: [u8; 5] = [line[1], line[2], line[3], line[4], line[5]];
        let mut transmission_parameter: Vec<u8> = Vec::new();
        let mut index: usize = PJLINK_LINE_PREFIX_LENGTH;
        while index < line.len()
            invariant
                PJLINK_LINE_PREFIX_LENGTH <= index <= line.len(),
                transmission_parameter@ == line@.subrange(7, index as int),
            decreases line.len() - index,
        {
            transmission_parameter.push(line[index]);
            assert(transmission_parameter@ =~= line@.subrange(7, index + 1));
            index += 1;
        }
        assert(transmission_parameter@ =~= line@.skip(7));
        assert(command_body_with_class@ =~= line@.subrange(1, 6));
        Ok(PjLinkRawPayload { command_body_with_class, separator: line[6], transmission_parameter })
    }

    /// Turns a request into the line that answers it: the command body is
    /// kept, the separator becomes `=`, and the parameter is that of the
    /// response. `_connection_id` names the session and plays no part in
    /// the result.
    pub fn update_with_response(self, response: PjLinkResponse, _connection_id: &u64) -> (answer:
        PjLinkRawPayload)
        ensures
            answer@ == response_line(self@.body, response.parameter()),
    {
        PjLinkRawPayload {
            command_body_with_class: self.command_body_with_class,
            separator: PJLINK_RESPONSE_SEPARATOR,
            transmission_parameter: response.into_parameter(),
        }
    }

    /// Writes a line as it goes on the wire.
    pub fn write_to_buffer(raw_response: PjLinkRawPayload) -> (buffer: Vec<u8>)
        ensures
            buffer@ == serialize_line(raw_response@),
    {
        let mut raw_response = raw_response;
        let mut buffer: Vec<u8> = Vec::new();
        buffer.push(PJLINK_HEADER);
        buffer.push(raw_response.command_body_with_class[0]);
        buffer.push(raw_response.command_body_with_class[1]);
        buffer.push(raw_response.command_body_with_class[2]);
        buffer.push(raw_response.command_body_with_class[3]);
        buffer.push(raw_response.command_body_with_class[4]);
        buffer.push(raw_response.separator);
        let ghost head = buffer@;
        let ghost parameter = raw_response.transmission_parameter@;
        assert(head =~= seq![PJLINK_HEADER] + raw_response@.body + seq![raw_response@.separator]);
        let parameter_length = raw_response.transmission_parameter.len();
        buffer.append(&mut raw_response.transmission_parameter);
        let buffer_last = buffer.len() - 1;
        if parameter_length > 0 && buffer[buffer_last] == 0 {
            buffer.set(buffer_last, PJLINK_TERMINATOR);
            assert(buffer@ =~= head + parameter.drop_last() + seq![PJLINK_TERMINATOR]);
        } else {
            buffer.push(PJLINK_TERMINATOR);
            assert(buffer@ =~= head + parameter + seq![PJLINK_TERMINATOR]);
        }
        buffer
    }
}

/// Every line on the wire ends with the terminator.
pub proof fn lemma_line_ends_with_terminator(line: PjLinkLine)
    ensures
        serialize_line(line).len() > 0,
        serialize_line(line).last() == PJLINK_TERMINATOR,
{
}

/// A line on the wire is as long as its framing and its parameter: the
/// header, the five bytes of the body, the separator, the parameter and
/// the terminator. Where the parameter ends with a zero byte, the line is
/// one byte shorter.
pub proof fn lemma_line_length(line: PjLinkLine)
    requires
        line.body.len() == 5,
    ensures
        serialize_line(line).len() == 1 + 5 + 1 + settled_parameter(line.parameter).len() + 1,
        settled(line) == line ==> serialize_line(line).len() == 1 + 5 + 1 + line.parameter.len()
            + 1,
{
}

/// A line whose body, separator and parameter hold no terminator carries
/// exactly one terminator on the wire: its last byte.
pub proof fn lemma_line_has_one_terminator(line: PjLinkLine)
    requires
        !line.body.contains(PJLINK_TERMINATOR),
        line.separator != PJLINK_TERMINATOR,
        !line.parameter.contains(PJLINK_TERMINATOR),
    ensures
        forall|index: int|
            0 <= index < serialize_line(line).len() ==> (serialize_line(line)[index]
                == PJLINK_TERMINATOR <==> index == serialize_line(line).len() - 1),
{
    let wire = serialize_line(line);
    let parameter = settled_parameter(line.parameter);
    assert forall|index: int| 0 <= index < wire.len() implies (wire[index] == PJLINK_TERMINATOR
        <==> index == wire.len() - 1) by {
        if 1 <= index < 1 + line.body.len() {
            assert(line.body.contains(line.body[index - 1]));
        } else if 2 + line.body.len() <= index < wire.len() - 1 {
            let at = index - 2 - line.body.len();
            assert(parameter[at] == line.parameter[at]);
            assert(line.parameter.contains(line.parameter[at]));
        }
    }
}

/// A line that has gone on the wire and is parsed again, its terminator
/// taken off, is the line with its parameter settled: the body and the
/// separator are those that were written, and so is the parameter, but for
/// a zero byte at its end.
pub proof fn lemma_parse_inverts_serialize(line: PjLinkLine)
    requires
        line.body.len() == 5,
    ensures
        parse_line(serialize_line(line).drop_last()) == Ok::<PjLinkLine, PjLinkFramingError>(
            settled(line),
        ),
        !(line.parameter.len() > 0 && line.parameter.last() == 0) ==> settled(line) == line,
{
    let wire = serialize_line(line).drop_last();
    let parameter = settled_parameter(line.parameter);
    assert(wire =~= seq![PJLINK_HEADER] + line.body + seq![line.separator] + parameter);
    assert(wire.subrange(1, 6) =~= line.body);
    assert(wire.skip(7) =~= parameter);
}

/// Settling is idempotent on a parameter that does not end with two zero
/// bytes: going through the wire a second time changes nothing.
pub proof fn lemma_settled_is_stable(line: PjLinkLine)
    requires
        !(line.parameter.len() >= 2 && line.parameter[line.parameter.len() - 1] == 0
            && line.parameter[line.parameter.len() - 2] == 0),
    ensures
        settled(settled(line)) == settled(line),
{
}

} // verus!
