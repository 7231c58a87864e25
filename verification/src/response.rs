//! The response algebra and the parameter bytes that each response
//! stands for.

use vstd::prelude::*;
use vstd::slice::slice_to_vec;
use vstd::std_specs::convert::FromSpecImpl;
use vstd::utf8::encode_utf8;
use crate::wire::{
    PJLINK_RESPONSE_TRANSMISSION_PARAMETER_ERR1,
    PJLINK_RESPONSE_TRANSMISSION_PARAMETER_ERR2,
    PJLINK_RESPONSE_TRANSMISSION_PARAMETER_ERR3,
    PJLINK_RESPONSE_TRANSMISSION_PARAMETER_ERR4,
    PJLINK_RESPONSE_TRANSMISSION_PARAMETER_OK,
};

verus! {

/// What a handler answers to a command.
#[derive(Debug, PartialEq, Eq)]
pub enum PjLinkResponse {
    /// Successful execution: `OK`.
    Okay,
    /// Undefined command: `ERR1`.
    Undefined,
    /// Parameter out of range: `ERR2`.
    OutOfParameter,
    /// Command refused at this time: `ERR3`.
    UnavailableTime,
    /// Projector or display failure: `ERR4`.
    ProjectorOrDisplayFailure,
    /// A parameter of one byte.
    Single(u8),
    /// A parameter of several bytes.
    Multiple(Vec<u8>),
    /// An empty parameter.
    Empty,
}

/// A response as mathematical values.
pub enum PjLinkResponseView {
    Okay,
    Undefined,
    OutOfParameter,
    UnavailableTime,
    ProjectorOrDisplayFailure,
    Single(u8),
    Multiple(Seq<u8>),
    Empty,
}

impl View for PjLinkResponse {
    type V = PjLinkResponseView;

    open spec fn view(&self) -> PjLinkResponseView {
        match self {
            PjLinkResponse::Okay => PjLinkResponseView::Okay,
            PjLinkResponse::Undefined => PjLinkResponseView::Undefined,
            PjLinkResponse::OutOfParameter => PjLinkResponseView::OutOfParameter,
            PjLinkResponse::UnavailableTime => PjLinkResponseView::UnavailableTime,
            PjLinkResponse::ProjectorOrDisplayFailure =>
                PjLinkResponseView::ProjectorOrDisplayFailure,
            PjLinkResponse::Single(value) => PjLinkResponseView::Single(*value),
            PjLinkResponse::Multiple(values) => PjLinkResponseView::Multiple(values@),
            PjLinkResponse::Empty => PjLinkResponseView::Empty,
        }
    }
}

impl Clone for PjLinkResponse {
    /// A copy that stands for the same response.
    fn clone(&self) -> (copy: Self)
        ensures
            copy@ == self@,
    {
        match self {
            PjLinkResponse::Okay => PjLinkResponse::Okay,
            PjLinkResponse::Undefined => PjLinkResponse::Undefined,
            PjLinkResponse::OutOfParameter => PjLinkResponse::OutOfParameter,
            PjLinkResponse::UnavailableTime => PjLinkResponse::UnavailableTime,
            PjLinkResponse::ProjectorOrDisplayFailure => PjLinkResponse::ProjectorOrDisplayFailure,
            PjLinkResponse::Single(value) => PjLinkResponse::Single(*value),
            PjLinkResponse::Multiple(values) => PjLinkResponse::Multiple(
                slice_to_vec(values.as_slice()),
            ),
            PjLinkResponse::Empty => PjLinkResponse::Empty,
        }
    }
}

impl PjLinkResponseView {
    /// The transmission parameter that the response puts on the wire.
    pub open spec fn parameter(self) -> Seq<u8> {
        match self {
            PjLinkResponseView::Okay => PJLINK_RESPONSE_TRANSMISSION_PARAMETER_OK@,
            PjLinkResponseView::Undefined => PJLINK_RESPONSE_TRANSMISSION_PARAMETER_ERR1@,
            PjLinkResponseView::OutOfParameter => PJLINK_RESPONSE_TRANSMISSION_PARAMETER_ERR2@,
            PjLinkResponseView::UnavailableTime => PJLINK_RESPONSE_TRANSMISSION_PARAMETER_ERR3@,
            PjLinkResponseView::ProjectorOrDisplayFailure =>
                PJLINK_RESPONSE_TRANSMISSION_PARAMETER_ERR4@,
            PjLinkResponseView::Single(value) => seq![value],
            PjLinkResponseView::Multiple(values) => values,
            PjLinkResponseView::Empty => Seq::empty(),
        }
    }
}

/// What the bytes of a transmission parameter read back as: the bytes of
/// a fixed token give the variant that the token names, an empty
/// parameter gives `Empty`, and any other bytes are kept as they are, in
/// `Multiple`.
pub open spec fn response_of_parameter(bytes: Seq<u8>) -> PjLinkResponseView {
    if bytes == PJLINK_RESPONSE_TRANSMISSION_PARAMETER_OK@ {
        PjLinkResponseView::Okay
    } else if bytes == PJLINK_RESPONSE_TRANSMISSION_PARAMETER_ERR1@ {
        PjLinkResponseView::Undefined
    } else if bytes == PJLINK_RESPONSE_TRANSMISSION_PARAMETER_ERR2@ {
        PjLinkResponseView::OutOfParameter
    } else if bytes == PJLINK_RESPONSE_TRANSMISSION_PARAMETER_ERR3@ {
        PjLinkResponseView::UnavailableTime
    } else if bytes == PJLINK_RESPONSE_TRANSMISSION_PARAMETER_ERR4@ {
        PjLinkResponseView::ProjectorOrDisplayFailure
    } else if bytes.len() >= 1 {
        PjLinkResponseView::Multiple(bytes)
    } else {
        PjLinkResponseView::Empty
    }
}

impl PjLinkResponse {
    /// The transmission parameter that the response puts on the wire.
    pub open spec fn parameter(self) -> Seq<u8> {
        self@.parameter()
    }

    /// The transmission parameter as bytes.
    pub fn into_parameter(self) -> (bytes: Vec<u8>)
        ensures
            bytes@ == self.parameter(),
    {
        match self {
            PjLinkResponse::Okay => token_bytes(PJLINK_RESPONSE_TRANSMISSION_PARAMETER_OK),
            PjLinkResponse::Undefined => token_bytes(PJLINK_RESPONSE_TRANSMISSION_PARAMETER_ERR1),
            PjLinkResponse::OutOfParameter => token_bytes(
                PJLINK_RESPONSE_TRANSMISSION_PARAMETER_ERR2,
            ),
            PjLinkResponse::UnavailableTime => token_bytes(
                PJLINK_RESPONSE_TRANSMISSION_PARAMETER_ERR3,
            ),
            PjLinkResponse::ProjectorOrDisplayFailure => token_bytes(
                PJLINK_RESPONSE_TRANSMISSION_PARAMETER_ERR4,
            ),
            PjLinkResponse::Single(response_value) => {
                let mut bytes = Vec::new();
                bytes.push(response_value);
                assert(bytes@ =~= seq![response_value]);
                bytes
            },
            PjLinkResponse::Multiple(response_value) => response_value,
            PjLinkResponse::Empty => Vec::new(),
        }
    }
}

/// A copy of the bytes of a token.
fn token_bytes(token: &[u8]) -> (bytes: Vec<u8>)
    ensures
        bytes@ == token@,
{
    slice_to_vec(token)
}

/// Whether two byte strings are equal.
pub fn bytes_equal(left: &[u8], right: &[u8]) -> (same: bool)
    ensures
        same == (left@ == right@),
{
    if left.len() != right.len() {
        return false;
    }
    let mut index: usize = 0;
    while index < left.len()
        invariant
            left.len() == right.len(),
            index <= left.len(),
            left@.subrange(0, index as int) == right@.subrange(0, index as int),
        decreases left.len() - index,
    {
        if left[index] != right[index] {
            return false;
        }
        assert(left@.subrange(0, index + 1) =~= left@.subrange(0, index as int).push(
            left@[index as int],
        ));
        assert(right@.subrange(0, index + 1) =~= right@.subrange(0, index as int).push(
            right@[index as int],
        ));
        index += 1;
    }
    assert(left@ =~= left@.subrange(0, index as int));
    assert(right@ =~= right@.subrange(0, index as int));
    true
}

impl From<Vec<u8>> for PjLinkResponse {
    /// Reads a transmission parameter back.
    fn from(from: Vec<u8>) -> (response: Self)
        ensures
            response@ == response_of_parameter(from@),
    {
        if bytes_equal(from.as_slice(), PJLINK_RESPONSE_TRANSMISSION_PARAMETER_OK) {
            PjLinkResponse::Okay
        } else if bytes_equal(from.as_slice(), PJLINK_RESPONSE_TRANSMISSION_PARAMETER_ERR1) {
            PjLinkResponse::Undefined
        } else if bytes_equal(from.as_slice(), PJLINK_RESPONSE_TRANSMISSION_PARAMETER_ERR2) {
            PjLinkResponse::OutOfParameter
        } else if bytes_equal(from.as_slice(), PJLINK_RESPONSE_TRANSMISSION_PARAMETER_ERR3) {
            PjLinkResponse::UnavailableTime
        } else if bytes_equal(from.as_slice(), PJLINK_RESPONSE_TRANSMISSION_PARAMETER_ERR4) {
            PjLinkResponse::ProjectorOrDisplayFailure
        } else if from.len() >= 1 {
            PjLinkResponse::Multiple(from)
        } else {
            assert(from@ =~= Seq::empty());
            PjLinkResponse::Empty
        }
    }
}

impl FromSpecImpl<Vec<u8>> for PjLinkResponse {
    open spec fn obeys_from_spec() -> bool {
        true
    }

    open spec fn from_spec(from: Vec<u8>) -> Self {
        if from@ == PJLINK_RESPONSE_TRANSMISSION_PARAMETER_OK@ {
            PjLinkResponse::Okay
        } else if from@ == PJLINK_RESPONSE_TRANSMISSION_PARAMETER_ERR1@ {
            PjLinkResponse::Undefined
        } else if from@ == PJLINK_RESPONSE_TRANSMISSION_PARAMETER_ERR2@ {
            PjLinkResponse::OutOfParameter
        } else if from@ == PJLINK_RESPONSE_TRANSMISSION_PARAMETER_ERR3@ {
            PjLinkResponse::UnavailableTime
        } else if from@ == PJLINK_RESPONSE_TRANSMISSION_PARAMETER_ERR4@ {
            PjLinkResponse::ProjectorOrDisplayFailure
        } else if from@.len() >= 1 {
            PjLinkResponse::Multiple(from)
        } else {
            PjLinkResponse::Empty
        }
    }
}

impl From<String> for PjLinkResponse {
    /// Reads the bytes of a string as a transmission parameter.
    fn from(from: String) -> (response: Self)
        ensures
            response@ == response_of_parameter(encode_utf8(from@)),
    {
        PjLinkResponse::from(slice_to_vec(from.as_str().as_bytes()))
    }
}

impl FromSpecImpl<String> for PjLinkResponse {
    open spec fn obeys_from_spec() -> bool {
        false
    }

    open spec fn from_spec(from: String) -> Self {
        PjLinkResponse::Empty
    }
}

/// Reading a parameter back keeps its bytes: the response that the bytes
/// read as puts the same bytes on the wire.
pub proof fn lemma_read_back_keeps_parameter(bytes: Seq<u8>)
    ensures
        response_of_parameter(bytes).parameter() == bytes,
{
    if response_of_parameter(bytes) is Empty {
        assert(bytes =~= Seq::empty());
    }
}

} // verus!
