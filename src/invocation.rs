use vstd::prelude::*;
use vstd::utf8::{decode_utf8, valid_utf8};
use crate::path_rule::{fits_script_rule, is_valid_script_path};

verus! {

/// Start of the message that rejects a path; the path follows it verbatim.
pub const REJECTION_PREFIX: &'static str =
    "Provided Python script path does not match expected filename! Got: ";

/// Start of the message that reports a script which exited with failure; the
/// script's standard error follows it.
pub const FAILURE_PREFIX: &'static str = "Error: ";

/// What became of the interpreter process.
pub enum ProcessReport {
    /// The process could not be started; the operating system's message.
    LaunchFailed(String),
    /// The process ran to its end.
    Exited { success: bool, stdout: Vec<u8>, stderr: Vec<u8> },
}

/// The texts that a result holds.
pub open spec fn result_view(r: Result<String, String>) -> Result<Seq<char>, Seq<char>> {
    match r {
        Ok(s) => Ok(s@),
        Err(e) => Err(e@),
    }
}

/// The message that rejects `path`.
pub open spec fn rejection_message(path: Seq<char>) -> Seq<char> {
    REJECTION_PREFIX@ + path
}

/// The message that reports a failing exit with `stderr_text`.
pub open spec fn failure_message_of(stderr_text: Seq<char>) -> Seq<char> {
    FAILURE_PREFIX@ + stderr_text
}

/// The path handed on to the interpreter, or the rejection of it.
pub open spec fn gate_result(path: Seq<char>) -> Result<Seq<char>, Seq<char>> {
    if fits_script_rule(path) {
        Ok(path)
    } else {
        Err(rejection_message(path))
    }
}

/// What the text of captured output reads as, invalid UTF-8 replaced.
pub uninterp spec fn lossy_text(bytes: Seq<u8>) -> Seq<char>;

/// The text of captured output: what valid UTF-8 encodes, or else what the
/// lossy decoding gives.
pub open spec fn output_text(bytes: Seq<u8>) -> Seq<char> {
    if valid_utf8(bytes) {
        decode_utf8(bytes)
    } else {
        lossy_text(bytes)
    }
}

/// The result that a report of the process comes to.
pub open spec fn outcome_of(report: ProcessReport) -> Result<Seq<char>, Seq<char>> {
    match report {
        ProcessReport::LaunchFailed(message) => Err(message@),
        ProcessReport::Exited { success, stdout, stderr } => if success {
            Ok(output_text(stdout@))
        } else {
            Err(failure_message_of(output_text(stderr@)))
        },
    }
}

/// The result of a whole invocation on `path`, where `report` is what the
/// process would report if it were started.
pub open spec fn invocation_result(path: Seq<char>, report: ProcessReport) -> Result<
    Seq<char>,
    Seq<char>,
> {
    match gate_result(path) {
        Ok(_) => outcome_of(report),
        Err(e) => Err(e),
    }
}

/// Relies on String::from_utf8_lossy: bytes that are valid UTF-8 come out as
/// the text they encode; each invalid sequence becomes U+FFFD instead of an
/// error.
#[verifier::external_body]
fn decode_lossy(bytes: &[u8]) -> (r: String)
    ensures
        r@ == lossy_text(bytes@),
        valid_utf8(bytes@) ==> r@ == decode_utf8(bytes@),
{
    String::from_utf8_lossy(bytes).into_owned()
}

/// Checks `path` against the script rule. On success the path comes back to
/// be handed to the interpreter; otherwise the rejection message, and no
/// process is to be started.
pub fn check_script_path(path: String) -> (r: Result<String, String>)
    ensures
        result_view(r) == gate_result(path@),
{
    if is_valid_script_path(path.as_str()) {
        Ok(path)
    } else {
        let mut message = String::from_str(REJECTION_PREFIX);
        message.append(path.as_str());
        Err(message)
    }
}

/// The message that reports a failing exit whose standard error reads
/// `stderr_text`.
pub fn failure_message(stderr_text: &str) -> (r: String)
    ensures
        r@ == failure_message_of(stderr_text@),
{
    let mut message = String::from_str(FAILURE_PREFIX);
    message.append(stderr_text);
    message
}

/// Maps what the interpreter reported to the invocation's result: its
/// standard output on success, its standard error behind the failure prefix
/// on a failing exit, and the launch error's message as it is.
pub fn process_outcome(report: &ProcessReport) -> (r: Result<String, String>)
    ensures
        result_view(r) == outcome_of(*report),
{
    match report {
        ProcessReport::LaunchFailed(message) => Err(message.clone()),
        ProcessReport::Exited { success, stdout, stderr } => {
            if *success {
                Ok(decode_lossy(stdout.as_slice()))
            } else {
                let text = decode_lossy(stderr.as_slice());
                Err(failure_message(text.as_str()))
            }
        },
    }
}

} // verus!
