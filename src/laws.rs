use vstd::prelude::*;
use vstd::utf8::{encode_utf8, encode_utf8_decode_utf8, encode_utf8_valid_utf8};
use crate::invocation::{
    gate_result, invocation_result, outcome_of, rejection_message, ProcessReport,
    FAILURE_PREFIX, REJECTION_PREFIX,
};
use crate::path_rule::fits_script_rule;

verus! {

/// A path that does not fit the rule is rejected whatever the process would
/// have done, nothing is handed on to be started, and the message holds the
/// path verbatim after the fixed prefix.
pub proof fn lemma_rejected_path(path: Seq<char>, report: ProcessReport)
    requires
        !fits_script_rule(path),
    ensures
        gate_result(path) is Err,
        invocation_result(path, report) == Err::<Seq<char>, Seq<char>>(rejection_message(path)),
        rejection_message(path).subrange(
            REJECTION_PREFIX@.len() as int,
            rejection_message(path).len() as int,
        ) == path,
{
    assert(rejection_message(path).subrange(
        REJECTION_PREFIX@.len() as int,
        rejection_message(path).len() as int,
    ) =~= path);
}

/// A path that fits the rule is never blocked: it is handed on unchanged and
/// the invocation ends as the process does.
pub proof fn lemma_accepted_path(path: Seq<char>, report: ProcessReport)
    requires
        fits_script_rule(path),
    ensures
        gate_result(path) == Ok::<Seq<char>, Seq<char>>(path),
        invocation_result(path, report) == outcome_of(report),
{
}

/// Text that a successful script prints comes back as it is.
pub proof fn lemma_stdout_round_trip(path: Seq<char>, text: Seq<char>, stdout: Vec<u8>, stderr: Vec<u8>)
    requires
        fits_script_rule(path),
        stdout@ == encode_utf8(text),
    ensures
        invocation_result(path, ProcessReport::Exited { success: true, stdout, stderr })
            == Ok::<Seq<char>, Seq<char>>(text),
{
    encode_utf8_valid_utf8(text);
    encode_utf8_decode_utf8(text);
}

/// A failing script's standard error comes back behind the failure prefix
/// and nothing else.
pub proof fn lemma_stderr_on_failure(path: Seq<char>, text: Seq<char>, stdout: Vec<u8>, stderr: Vec<u8>)
    requires
        fits_script_rule(path),
        stderr@ == encode_utf8(text),
    ensures
        invocation_result(path, ProcessReport::Exited { success: false, stdout, stderr })
            == Err::<Seq<char>, Seq<char>>(FAILURE_PREFIX@ + text),
{
    encode_utf8_valid_utf8(text);
    encode_utf8_decode_utf8(text);
}

/// A launch failure comes back as the operating system's message alone,
/// with no prefix added; so a non-empty message that does not start with the
/// failure prefix stays apart from the report of a failing exit.
pub proof fn lemma_launch_failure(path: Seq<char>, message: String)
    requires
        fits_script_rule(path),
    ensures
        invocation_result(path, ProcessReport::LaunchFailed(message))
            == Err::<Seq<char>, Seq<char>>(message@),
        message@.len() > 0 ==> invocation_result(
            path,
            ProcessReport::LaunchFailed(message),
        )->Err_0.len() > 0,
        !FAILURE_PREFIX@.is_prefix_of(message@) ==> !FAILURE_PREFIX@.is_prefix_of(
            invocation_result(path, ProcessReport::LaunchFailed(message))->Err_0,
        ),
{
}

/// Two invocations on the same path whose processes report the same end the
/// same way: nothing is carried from one call to the next.
pub proof fn lemma_invocation_deterministic(
    path1: Seq<char>,
    path2: Seq<char>,
    report1: ProcessReport,
    report2: ProcessReport,
)
    requires
        path1 == path2,
        report1 == report2,
    ensures
        gate_result(path1) == gate_result(path2),
        invocation_result(path1, report1) == invocation_result(path2, report2),
{
}

} // verus!
