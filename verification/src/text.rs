//! Text that crosses the boundary of the pipeline: driver logs and file
//! contents arrive as bytes, diagnostics leave as strings.

use crate::driver::Stage;
use vstd::prelude::*;
use vstd::string::StringSliceAdditionalSpecFns;
use vstd::utf8::{decode_utf8, encode_utf8_decode_utf8, valid_utf8};

verus! {

/// The text that `bytes` encode, where they are well-formed UTF-8.
pub open spec fn text_of(bytes: Seq<u8>) -> Option<Seq<char>> {
    if valid_utf8(bytes) {
        Some(decode_utf8(bytes))
    } else {
        None
    }
}

/// Calls `core::str::from_utf8`. Its documentation promises a string slice
/// over exactly the given bytes when they are valid UTF-8 and an error
/// otherwise; the contract says that and no more.
#[verifier::external_body]
fn str_from_utf8(bytes: &[u8]) -> (text: Option<&str>)
    ensures
        text is Some <==> valid_utf8(bytes@),
        text matches Some(s) ==> s.spec_bytes() == bytes@,
{
    match core::str::from_utf8(bytes) {
        Ok(s) => Some(s),
        Err(_) => None,
    }
}

/// Decodes `bytes` as UTF-8 text; `None` says they are not well-formed.
pub fn decode(bytes: &Vec<u8>) -> (text: Option<String>)
    ensures
        text is Some <==> valid_utf8(bytes@),
        text matches Some(s) ==> s@ == decode_utf8(bytes@),
        (match text {
            Some(s) => Some(s@),
            None => None,
        }) == text_of(bytes@),
{
    match str_from_utf8(bytes.as_slice()) {
        Some(s) => {
            proof {
                encode_utf8_decode_utf8(s@);
            }
            Some(s.to_owned())
        },
        None => None,
    }
}

/// Whether `bytes` are well-formed UTF-8.
pub fn is_text(bytes: &Vec<u8>) -> (ok: bool)
    ensures
        ok == valid_utf8(bytes@),
{
    str_from_utf8(bytes.as_slice()).is_some()
}

/// Heading of the diagnostic for a stage that did not compile.
pub open spec fn compile_heading(stage: Stage) -> Seq<char> {
    match stage {
        Stage::Vertex => "Vertex shader compilation failed:\n"@,
        Stage::Fragment => "Fragment shader compilation failed:\n"@,
    }
}

/// Diagnostic for a stage that did not compile: the heading that names the
/// stage, then the driver's log in full.
pub open spec fn compile_failure_text(stage: Stage, log: Seq<char>) -> Seq<char> {
    compile_heading(stage) + log
}

/// Heading of the diagnostic for a program that did not link.
pub open spec fn link_heading() -> Seq<char> {
    "Shader linking failed:\n"@
}

/// Diagnostic for a program that did not link: the heading, then the
/// driver's log in full.
pub open spec fn link_failure_text(log: Seq<char>) -> Seq<char> {
    link_heading() + log
}

/// Diagnostic for a file whose bytes are not well-formed UTF-8.
pub open spec fn not_utf8_text(path: Seq<char>) -> Seq<char> {
    "File at '"@ + path + "' is not valid UTF-8."@
}

/// Diagnostic for a file that could not be read, with the reason the
/// operating system gave.
pub open spec fn unreadable_text(path: Seq<char>, reason: Seq<char>) -> Seq<char> {
    "File at '"@ + path + "' could not be read: "@ + reason
}

/// What loading one source file yields: its text, or the diagnostic that
/// names the path.
pub open spec fn file_contents_of(path: Seq<char>, read: Result<Seq<u8>, Seq<char>>) -> Result<
    Seq<char>,
    Seq<char>,
> {
    match read {
        Err(reason) => Err(unreadable_text(path, reason)),
        Ok(bytes) => match text_of(bytes) {
            Some(text) => Ok(text),
            None => Err(not_utf8_text(path)),
        },
    }
}

/// Builds the diagnostic for a stage that did not compile.
pub fn compile_failure(stage: Stage, log: &str) -> (message: String)
    ensures
        message@ == compile_failure_text(stage, log@),
{
    let heading = match stage {
        Stage::Vertex => "Vertex shader compilation failed:\n",
        Stage::Fragment => "Fragment shader compilation failed:\n",
    };
    let mut message = heading.to_owned();
    message.append(log);
    message
}

/// Builds the diagnostic for a program that did not link.
pub fn link_failure(log: &str) -> (message: String)
    ensures
        message@ == link_failure_text(log@),
{
    let mut message = "Shader linking failed:\n".to_owned();
    message.append(log);
    message
}

/// Turns the outcome of reading one source file into its text. A failed read
/// and bytes that are not UTF-8 each give a diagnostic that names `path`.
pub fn file_contents(path: &str, read: Result<Vec<u8>, String>) -> (contents: Result<
    String,
    String,
>)
    ensures
        (match contents {
            Ok(text) => Ok(text@),
            Err(message) => Err(message@),
        }) == file_contents_of(
            path@,
            match read {
                Ok(bytes) => Ok(bytes@),
                Err(reason) => Err(reason@),
            },
        ),
{
    match read {
        Err(reason) => {
            let mut message = "File at '".to_owned();
            message.append(path);
            message.append("' could not be read: ");
            message.append(reason.as_str());
            Err(message)
        },
        Ok(bytes) => match decode(&bytes) {
            Some(text) => Ok(text),
            None => {
                let mut message = "File at '".to_owned();
                message.append(path);
                message.append("' is not valid UTF-8.");
                Err(message)
            },
        },
    }
}

} // verus!
