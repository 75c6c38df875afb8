//! The text format, by way of the `wat` crate.

use vstd::prelude::*;

verus! {

/// The error type of the `wat` crate.
#[verifier::external_type_specification]
#[verifier::external_body]
pub struct ExWatError(wat::Error);

/// The binary module that `wat::parse_str` makes of a text, where it takes
/// the text.
pub uninterp spec fn wat_binary(text: Seq<char>) -> Option<Seq<u8>>;

/// `wat::parse_str`: parses a module in the text format and encodes it in
/// the binary format. The result depends on the text alone.
#[verifier::external_body]
fn wat_parse_str(text: &str) -> (r: Result<Vec<u8>, wat::Error>)
    ensures
        match r {
            Ok(bytes) => wat_binary(text@) == Some(bytes@),
            Err(_) => wat_binary(text@) is None,
        },
{
    wat::parse_str(text)
}

/// The `Display` of `wat::Error`: the message of the error, with the place
/// in the text that it is about.
#[verifier::external_body]
fn wat_error_message(error: &wat::Error) -> (r: String) {
    error.to_string()
}

/// Why a text was refused: the message of the parser.
#[derive(Debug, Clone, PartialEq)]
pub struct WatParseError(pub String);

impl WatParseError {
    /// The message this error is reported with.
    pub fn to_string(&self) -> (r: String)
        ensures
            r@ == self.0@,
    {
        self.0.clone()
    }
}

pub struct WatParser {}

impl WatParser {
    /// The binary form of a module in the text format.
    pub fn parse_str(wat: &str) -> (r: Result<Vec<u8>, WatParseError>)
        ensures
            match r {
                Ok(bytes) => wat_binary(wat@) == Some(bytes@),
                Err(_) => wat_binary(wat@) is None,
            },
    {
        match wat_parse_str(wat) {
            Ok(bytes) => Ok(bytes),
            Err(e) => Err(WatParseError(wat_error_message(&e))),
        }
    }
}

} // verus!
