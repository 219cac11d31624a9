//! Loading the target file's text from the outcome of the one file read.
//!
//! The read itself is a single blocking call that the surrounding program
//! makes; it reports back what happened as a [`ReadOutcome`]. Everything
//! after that point — decoding the bytes and assigning each failure its
//! distinct error — is decided here.

use vstd::prelude::*;
use vstd::utf8::decode_utf8;
use vstd::utf8::decode_utf8_encode_utf8;
use vstd::utf8::encode_utf8;
use vstd::utf8::valid_utf8;

verus! {

/// What one attempt to read the whole target file produced, as the
/// surrounding program observed it: either the file's bytes, unaltered, or
/// the kind of failure the operating system reported.
pub enum ReadOutcome {
    /// The whole file was read; these are its on-disk bytes.
    Data(Vec<u8>),
    /// The path does not resolve to an existing file.
    NotFound,
    /// The process lacks read access to the file.
    PermissionDenied,
    /// Any other transient or device-level failure during the read.
    OtherIo,
}

/// The distinct, reportable ways loading the file's contents can fail.
#[derive(Debug, Clone, Copy, PartialEq, Eq, Structural)]
pub enum LoadError {
    /// The path does not resolve to an existing file.
    NotFoundError,
    /// The process lacks read access.
    PermissionError,
    /// The file's bytes are not valid UTF-8 text.
    DecodeError,
    /// Any other failure during the read.
    IOError,
}

/// The contents owed for a given read outcome: the decoded text when the
/// file was read and its bytes are valid UTF-8, otherwise the one error
/// assigned to that failure.
pub open spec fn load_result(outcome: ReadOutcome) -> Result<Seq<char>, LoadError> {
    match outcome {
        ReadOutcome::Data(bytes) => if valid_utf8(bytes@) {
            Ok(decode_utf8(bytes@))
        } else {
            Err(LoadError::DecodeError)
        },
        ReadOutcome::NotFound => Err(LoadError::NotFoundError),
        ReadOutcome::PermissionDenied => Err(LoadError::PermissionError),
        ReadOutcome::OtherIo => Err(LoadError::IOError),
    }
}

/// Relies on String::from_utf8: it returns Ok exactly when the bytes are a
/// valid UTF-8 encoding, and the string it returns is their decoding.
#[verifier::external_body]
fn decode_bytes(bytes: Vec<u8>) -> (decoded: Option<String>)
    ensures
        decoded is Some <==> valid_utf8(bytes@),
        decoded matches Some(text) ==> text@ == decode_utf8(bytes@),
{
    String::from_utf8(bytes).ok()
}

/// Turns a read outcome into the file's full text as one owned buffer, or
/// into the error owed to the failure: exactly [`load_result`] of the
/// outcome. Nothing is trimmed, altered or retried, and no partial contents
/// are ever returned.
pub fn load_contents(outcome: ReadOutcome) -> (result: Result<String, LoadError>)
    ensures
        (match result {
            Ok(contents) => load_result(outcome) == Ok::<Seq<char>, LoadError>(contents@),
            Err(error) => load_result(outcome) == Err::<Seq<char>, LoadError>(error),
        }),
{
    match outcome {
        ReadOutcome::Data(bytes) => match decode_bytes(bytes) {
            Some(contents) => Ok(contents),
            None => Err(LoadError::DecodeError),
        },
        ReadOutcome::NotFound => Err(LoadError::NotFoundError),
        ReadOutcome::PermissionDenied => Err(LoadError::PermissionError),
        ReadOutcome::OtherIo => Err(LoadError::IOError),
    }
}

/// Law: loaded contents are faithful byte for byte. Whenever a read outcome
/// yields text, the outcome was a completed read, and re-encoding the text
/// gives back exactly the bytes that were on disk.
pub proof fn lemma_loaded_text_preserves_bytes(outcome: ReadOutcome, text: Seq<char>)
    requires
        load_result(outcome) == Ok::<Seq<char>, LoadError>(text),
    ensures
        outcome matches ReadOutcome::Data(bytes) && encode_utf8(text) == bytes@,
{
    match outcome {
        ReadOutcome::Data(bytes) => {
            decode_utf8_encode_utf8(bytes@);
        },
        _ => {},
    }
}

/// Law: loading is idempotent. The contents owed to a read outcome are a
/// function of that outcome alone, so two reads of the same unmodified file
/// are owed identical contents both times.
pub proof fn lemma_load_idempotent(first: ReadOutcome, second: ReadOutcome)
    requires
        first == second,
    ensures
        load_result(first) == load_result(second),
{
}

} // verus!
