//! The error that an inherent of this module is refused with, and its form
//! on the wire.

use vstd::prelude::*;
use vstd::slice::slice_subrange;
use vstd::string::StringExecFns;

use crate::inherent_data::{is_author_identifier, InherentIdentifier, INHERENT_IDENTIFIER};

verus! {

/// Why an inherent of this module was refused. On the wire it is the tag of
/// its variant, one byte, and then the encoded message.
#[derive(Debug, PartialEq, Eq)]
pub enum InherentError {
    /// A refusal with its reason in words.
    Other(String),
}

impl View for InherentError {
    type V = Seq<char>;

    /// The reason in words.
    open spec fn view(&self) -> Seq<char> {
        match self {
            InherentError::Other(message) => message@,
        }
    }
}

/// What `parity_scale_codec` reports when bytes do not decode.
#[verifier::external_type_specification]
#[verifier::external_body]
pub struct ExCodecError(parity_scale_codec::Error);

/// The string that `parity_scale_codec` reads from the front of `bytes`, if
/// they start with the encoding of one.
pub uninterp spec fn scale_string(bytes: Seq<u8>) -> Option<Seq<char>>;

/// How `std` writes a string for debugging: in quotes, with what does not
/// print escaped.
pub uninterp spec fn debug_text(text: Seq<char>) -> Seq<char>;

/// `Decode::decode` of `parity_scale_codec` for a `String`, on all of
/// `bytes`: the string that they start with, or an error where they start
/// with none.
#[verifier::external_body]
fn decode_string(bytes: &[u8]) -> (decoded: Result<String, parity_scale_codec::Error>)
    ensures
        decoded is Ok <==> scale_string(bytes@) is Some,
        decoded is Ok ==> scale_string(bytes@) == Some(decoded->Ok_0@),
{
    let mut input = bytes;
    parity_scale_codec::Decode::decode(&mut input)
}

/// `format!` with `{:?}` on a string.
#[verifier::external_body]
fn debug_string(text: &String) -> (written: String)
    ensures
        written@ == debug_text(text@),
{
    format!("{:?}", text)
}

/// The tag of `InherentError::Other` on the wire.
pub const OTHER_TAG: u8 = 0;

impl InherentError {
    /// The encoded message in `data`, where `data` is an error of this
    /// module under `identifier`: what follows the tag.
    pub open spec fn message_bytes(identifier: Seq<u8>, data: Seq<u8>) -> Option<Seq<u8>> {
        if identifier == INHERENT_IDENTIFIER@ && data.len() >= 1 && data[0] == OTHER_TAG {
            Some(data.subrange(1, data.len() as int))
        } else {
            None
        }
    }

    /// The message of the error that `data` holds under `identifier`.
    pub open spec fn decoding(identifier: Seq<u8>, data: Seq<u8>) -> Option<Seq<char>> {
        match Self::message_bytes(identifier, data) {
            Some(bytes) => scale_string(bytes),
            None => None,
        }
    }

    /// How an error is shown whose message, written for debugging, is
    /// `quoted`.
    pub open spec fn shown(quoted: Seq<char>) -> Seq<char> {
        "Other("@ + quoted + ")"@
    }

    /// Every error of this module is fatal: the round cannot go on.
    pub fn is_fatal_error(&self) -> (fatal: bool)
        ensures
            fatal,
    {
        match *self {
            InherentError::Other(_) => true,
        }
    }

    /// The part of `data` that holds the message, where `identifier` is the
    /// one of this module and `data` starts with the tag of an error.
    pub fn payload<'a>(identifier: &InherentIdentifier, data: &'a [u8]) -> (bytes: Option<
        &'a [u8],
    >)
        ensures
            bytes is Some <==> Self::message_bytes(identifier@, data@) is Some,
            bytes matches Some(rest) ==> Self::message_bytes(identifier@, data@) == Some(rest@),
    {
        if is_author_identifier(identifier) && data.len() >= 1 && data[0] == OTHER_TAG {
            Some(slice_subrange(data, 1, data.len()))
        } else {
            None
        }
    }

    /// Reads the error that was reported under `identifier` from `data`.
    /// There is none where the identifier is not the one of this module, or
    /// where `data` does not decode.
    pub fn try_from(identifier: &InherentIdentifier, data: &[u8]) -> (error: Option<Self>)
        ensures
            error is Some <==> Self::decoding(identifier@, data@) is Some,
            error matches Some(e) ==> Self::decoding(identifier@, data@) == Some(e@),
    {
        match Self::payload(identifier, data) {
            Some(bytes) => match decode_string(bytes) {
                Ok(message) => Some(InherentError::Other(message)),
                Err(_) => None,
            },
            None => None,
        }
    }

    /// Puts the name of the variant round a message that is already written
    /// for debugging.
    pub fn show(quoted: &str) -> (text: String)
        ensures
            text@ == Self::shown(quoted@),
    {
        let mut text = String::from_str("Other(");
        text.append(quoted);
        text.append(")");
        text
    }

    /// The error as text, for a reader.
    pub fn to_text(&self) -> (text: String)
        ensures
            text@ == Self::shown(debug_text(self@)),
    {
        match self {
            InherentError::Other(message) => {
                let quoted = debug_string(message);
                Self::show(quoted.as_str())
            },
        }
    }
}

} // verus!
