//! What a finished backend process becomes for the caller: its output on
//! success, its error stream on failure, and a launch message when the
//! interpreter could not be started at all.

use vstd::prelude::*;
use vstd::utf8::{decode_utf8, valid_utf8};

verus! {

/// The program that runs the backend's entry points.
pub open spec fn interpreter_name() -> Seq<char> {
    "python"@
}

/// Text put before the system's description when the interpreter cannot be
/// started.
pub open spec fn launch_prefix() -> Seq<char> {
    "Failed to launch Python: "@
}

/// The text that lossy UTF-8 decoding makes of `b`.
pub uninterp spec fn lossy_text(b: Seq<u8>) -> Seq<char>;

/// Relies on `String::from_utf8_lossy`: the text depends on the bytes alone,
/// and bytes that are valid UTF-8 come out as the text they encode.
#[verifier::external_body]
fn decode_lossy(b: &Vec<u8>) -> (r: String)
    ensures
        r@ == lossy_text(b@),
        valid_utf8(b@) ==> r@ == decode_utf8(b@),
{
    String::from_utf8_lossy(b.as_slice()).into_owned()
}

/// A backend process that ran to its end.
#[derive(Clone, Debug)]
pub struct InvocationOutcome {
    /// Whether the process reported success through its exit status.
    pub succeeded: bool,
    pub stdout: Vec<u8>,
    pub stderr: Vec<u8>,
}

/// The texts of a result.
pub open spec fn text_result(r: Result<String, String>) -> Result<Seq<char>, Seq<char>> {
    match r {
        Ok(s) => Ok(s@),
        Err(e) => Err(e@),
    }
}

/// The exit status alone decides: the output stream on success, the error
/// stream on failure; the other stream is dropped unread.
pub open spec fn translated(succeeded: bool, out: Seq<char>, err: Seq<char>) -> Result<
    Seq<char>,
    Seq<char>,
> {
    if succeeded {
        Ok(out)
    } else {
        Err(err)
    }
}

/// The result for a finished process.
pub open spec fn outcome_result(o: InvocationOutcome) -> Result<Seq<char>, Seq<char>> {
    translated(o.succeeded, lossy_text(o.stdout@), lossy_text(o.stderr@))
}

/// The result for a process that could not be started.
pub open spec fn launch_failure_result(description: Seq<char>) -> Result<Seq<char>, Seq<char>> {
    Err(launch_prefix() + description)
}

/// Name of the interpreter program to start.
pub fn interpreter() -> (r: &'static str)
    ensures
        r@ == interpreter_name(),
{
    "python"
}

/// Chooses between the decoded streams of a finished process.
pub fn translate_text(succeeded: bool, stdout: String, stderr: String) -> (r: Result<
    String,
    String,
>)
    ensures
        text_result(r) == translated(succeeded, stdout@, stderr@),
{
    if succeeded {
        Ok(stdout)
    } else {
        Err(stderr)
    }
}

/// The result for a finished process: its decoded output if it succeeded,
/// else its decoded error stream.
pub fn translate(outcome: InvocationOutcome) -> (r: Result<String, String>)
    ensures
        text_result(r) == outcome_result(outcome),
        outcome.succeeded && valid_utf8(outcome.stdout@) ==> text_result(r) == Ok::<
            Seq<char>,
            Seq<char>,
        >(decode_utf8(outcome.stdout@)),
        !outcome.succeeded && valid_utf8(outcome.stderr@) ==> text_result(r) == Err::<
            Seq<char>,
            Seq<char>,
        >(decode_utf8(outcome.stderr@)),
{
    if outcome.succeeded {
        translate_text(true, decode_lossy(&outcome.stdout), String::new())
    } else {
        translate_text(false, String::new(), decode_lossy(&outcome.stderr))
    }
}

/// The message for an interpreter that could not be started, given the
/// system's description of why.
pub fn launch_failure_message(description: &str) -> (r: String)
    ensures
        r@ == launch_prefix() + description@,
{
    let mut r = String::from_str("Failed to launch Python: ");
    r.append(description);
    r
}

/// The result of one backend call: a finished process is translated, a
/// launch failure becomes its message.
pub fn conclude(run: Result<InvocationOutcome, String>) -> (r: Result<String, String>)
    ensures
        run matches Ok(o) ==> text_result(r) == outcome_result(o),
        run matches Err(d) ==> text_result(r) == launch_failure_result(d@),
{
    match run {
        Ok(o) => translate(o),
        Err(d) => Err(launch_failure_message(d.as_str())),
    }
}

/// A successful process yields its output, whatever it wrote to its error
/// stream.
pub proof fn lemma_success_yields_output(o1: InvocationOutcome, o2: InvocationOutcome)
    requires
        o1.succeeded,
        o2.succeeded,
        o1.stdout@ == o2.stdout@,
    ensures
        outcome_result(o1) == Ok::<Seq<char>, Seq<char>>(lossy_text(o1.stdout@)),
        outcome_result(o1) == outcome_result(o2),
{
}

/// A failed process yields its error stream, whatever it wrote to its output.
pub proof fn lemma_failure_yields_error_stream(o1: InvocationOutcome, o2: InvocationOutcome)
    requires
        !o1.succeeded,
        !o2.succeeded,
        o1.stderr@ == o2.stderr@,
    ensures
        outcome_result(o1) == Err::<Seq<char>, Seq<char>>(lossy_text(o1.stderr@)),
        outcome_result(o1) == outcome_result(o2),
{
}

/// A launch failure's message holds the system's description whole, after
/// the launch prefix.
pub proof fn lemma_launch_failure_names_cause(description: Seq<char>)
    ensures
        launch_failure_result(description) matches Err(m) && m.subrange(
            launch_prefix().len() as int,
            m.len() as int,
        ) == description && m.subrange(0, launch_prefix().len() as int) == launch_prefix(),
{
    let m = launch_prefix() + description;
    assert(m.subrange(launch_prefix().len() as int, m.len() as int) =~= description);
    assert(m.subrange(0, launch_prefix().len() as int) =~= launch_prefix());
}

} // verus!
