//! External commands and what becomes of their captured output.

use vstd::prelude::*;
use vstd::utf8::{decode_utf8, encode_utf8, valid_utf8};
use crate::error::BuildError;

verus! {

/// A process invocation: program, arguments and working directory.
pub struct ExternalCommand {
    pub program: String,
    pub args: Vec<String>,
    /// Working directory; the driver's own where `None`.
    pub cwd: Option<String>,
}

/// What a process that ran left behind.
pub struct ProcessOutput {
    pub stdout: Vec<u8>,
    pub stderr: Vec<u8>,
    /// Whether the exit status reports success.
    pub success: bool,
    /// The exit status as the operating system describes it.
    pub status: String,
}

/// Relies on `String::from_utf8`: the text that the bytes encode, or `None`
/// where they are not valid UTF-8.
#[verifier::external_body]
fn utf8_text(bytes: Vec<u8>) -> (r: Option<String>)
    ensures
        r is Some <==> valid_utf8(bytes@),
        r matches Some(s) ==> s@ == decode_utf8(bytes@),
{
    String::from_utf8(bytes).ok()
}

/// Reads captured output as text; `context` names the command in the error.
pub fn output_text(bytes: Vec<u8>, context: &str) -> (r: Result<String, BuildError>)
    ensures
        valid_utf8(bytes@) ==> (r matches Ok(s) && s@ == decode_utf8(bytes@)),
        !valid_utf8(bytes@) ==> (r matches Err(BuildError::EncodingFailure { context: c })
            && c@ == context@),
{
    match utf8_text(bytes) {
        Some(s) => Ok(s),
        None => Err(BuildError::EncodingFailure { context: context.to_owned() }),
    }
}

/// The diagnostic echo of a finished command: its stdout, its stderr and its
/// status, each under a label, the captured bytes unchanged.
pub open spec fn log_of(stdout: Seq<u8>, stderr: Seq<u8>, status: Seq<char>) -> Seq<u8> {
    encode_utf8("[stdout] "@) + stdout + encode_utf8("\n[stderr] "@) + stderr + encode_utf8(
        "\n[status] "@,
    ) + encode_utf8(status)
}

fn push_bytes(v: &mut Vec<u8>, b: &[u8])
    ensures
        final(v)@ == old(v)@ + b@,
{
    let mut i: usize = 0;
    while i < b.len()
        invariant
            i <= b@.len(),
            v@ == old(v)@ + b@.subrange(0, i as int),
        decreases b@.len() - i,
    {
        v.push(b[i]);
        i = i + 1;
        assert(b@.subrange(0, i as int) =~= b@.subrange(0, i - 1) + seq![b@[i - 1]]);
    }
    assert(b@.subrange(0, i as int) =~= b@);
}

/// `bytes` under a text label.
pub fn labelled(label: &str, bytes: &Vec<u8>) -> (r: Vec<u8>)
    ensures
        r@ == encode_utf8(label@) + bytes@,
{
    let mut v: Vec<u8> = Vec::new();
    push_bytes(&mut v, label.as_bytes());
    push_bytes(&mut v, bytes.as_slice());
    v
}

/// The echo of `out`, as [`log_of`] describes it.
pub fn execution_log(out: &ProcessOutput) -> (r: Vec<u8>)
    ensures
        r@ == log_of(out.stdout@, out.stderr@, out.status@),
{
    let mut v: Vec<u8> = Vec::new();
    push_bytes(&mut v, "[stdout] ".as_bytes());
    push_bytes(&mut v, out.stdout.as_slice());
    push_bytes(&mut v, "\n[stderr] ".as_bytes());
    push_bytes(&mut v, out.stderr.as_slice());
    push_bytes(&mut v, "\n[status] ".as_bytes());
    push_bytes(&mut v, out.status.as_str().as_bytes());
    v
}

/// Turns a failure exit status into an error that carries the full echo.
pub fn check_exit(out: ProcessOutput, context: &str) -> (r: Result<ProcessOutput, BuildError>)
    ensures
        out.success ==> r == Ok::<ProcessOutput, BuildError>(out),
        !out.success ==> (r matches Err(BuildError::ProcessExitFailure { context: c, log }) && c@
            == context@ && log@ == log_of(out.stdout@, out.stderr@, out.status@)),
{
    if out.success {
        Ok(out)
    } else {
        let log = execution_log(&out);
        Err(BuildError::ProcessExitFailure { context: context.to_owned(), log })
    }
}

/// The echo holds the captured stdout and stderr byte for byte, at fixed
/// places after their labels.
pub proof fn lemma_log_holds_output(stdout: Seq<u8>, stderr: Seq<u8>, status: Seq<char>)
    ensures
        ({
            let log = log_of(stdout, stderr, status);
            let i = encode_utf8("[stdout] "@).len() as int;
            let j = i + stdout.len() + encode_utf8("\n[stderr] "@).len();
            &&& log.subrange(i, i + stdout.len()) == stdout
            &&& log.subrange(j, j + stderr.len()) == stderr
        }),
{
    let log = log_of(stdout, stderr, status);
    let i = encode_utf8("[stdout] "@).len() as int;
    let j = i + stdout.len() + encode_utf8("\n[stderr] "@).len();
    assert(log.subrange(i, i + stdout.len()) =~= stdout);
    assert(log.subrange(j, j + stderr.len()) =~= stderr);
}

} // verus!
