//! Invocation Runner, decision half: decoding what a one-shot child process
//! produced. The caller spawns the child and captures its exit status and
//! streams; everything after that — the success check, the choice of
//! diagnostic stream, and the two output decoders — is decided and verified
//! here. The UTF-8 and JSON decoding steps call outside code through trusted
//! wrappers whose contracts are stated over the byte and character sequences
//! alone.

use vstd::prelude::*;

verus! {

use crate::errors::ChildFailureError;
use crate::text::trim_str;
use crate::text::trimmed;
use vstd::string::StrSliceExecFns;
use vstd::utf8::decode_utf8;
use vstd::utf8::valid_utf8;

#[verifier::external_type_specification]
#[verifier::external_body]
pub struct ExValue(serde_json::Value);

/// Whether a string parses as a single structured (JSON) document. The
/// parser's verdict depends on the characters alone, so it has a name here;
/// nothing else is assumed about it.
pub uninterp spec fn json_parses(s: Seq<char>) -> bool;

/// Relies on serde_json::from_str::<serde_json::Value>: parsing succeeds or
/// fails as a function of the input characters alone.
#[verifier::external_body]
fn parse_json_value(s: &str) -> (r: Option<serde_json::Value>)
    ensures
        r is Some <==> json_parses(s@),
{
    serde_json::from_str::<serde_json::Value>(s).ok()
}

/// Relies on String::from_utf8: returns the decoded string exactly when the
/// bytes are valid UTF-8, and nothing otherwise.
#[verifier::external_body]
fn bytes_to_string(b: &[u8]) -> (r: Option<String>)
    ensures
        r is Some <==> valid_utf8(b@),
        r matches Some(s) ==> s@ == decode_utf8(b@),
{
    String::from_utf8(b.to_vec()).ok()
}

/// What String::from_utf8_lossy makes of arbitrary bytes. The replacement of
/// invalid sequences depends on the bytes alone, so it has a name here; on
/// valid UTF-8 it is the exact decoding.
pub uninterp spec fn lossy_decode(b: Seq<u8>) -> Seq<char>;

/// Relies on String::from_utf8_lossy: the result is a function of the bytes
/// alone and equals the exact decoding when the bytes are valid UTF-8.
#[verifier::external_body]
fn bytes_to_string_lossy(b: &[u8]) -> (r: String)
    ensures
        r@ == lossy_decode(b@),
        valid_utf8(b@) ==> r@ == decode_utf8(b@),
{
    String::from_utf8_lossy(b).into_owned()
}

/// Exit status and captured streams of a finished one-shot child process.
pub struct CapturedOutput {
    pub success: bool,
    pub stdout: Vec<u8>,
    pub stderr: Vec<u8>,
}

/// The diagnostic text of a failed child: the trimmed standard error when
/// non-empty, else the trimmed standard output.
pub open spec fn failure_detail_spec(stdout: Seq<u8>, stderr: Seq<u8>) -> Seq<char> {
    if trimmed(lossy_decode(stderr)).len() > 0 {
        trimmed(lossy_decode(stderr))
    } else {
        trimmed(lossy_decode(stdout))
    }
}

/// Pick the diagnostic text of a failed child.
pub fn failure_detail(stdout: &[u8], stderr: &[u8]) -> (r: String)
    ensures
        r@ == failure_detail_spec(stdout@, stderr@),
{
    let se = trim_str(bytes_to_string_lossy(stderr).as_str());
    if se.unicode_len() > 0 {
        se
    } else {
        trim_str(bytes_to_string_lossy(stdout).as_str())
    }
}

/// Plain-text decoder: the entire trimmed output is the result, and must be
/// non-empty; non-UTF-8 bytes and blank output are contract violations.
pub fn parse_cli_text_output(stdout: &[u8]) -> (r: Result<String, ChildFailureError>)
    ensures
        !valid_utf8(stdout@) ==> r matches Err(ChildFailureError::NonUtf8Output),
        valid_utf8(stdout@) && trimmed(decode_utf8(stdout@)).len() == 0 ==> r matches Err(
            ChildFailureError::EmptyOutput,
        ),
        valid_utf8(stdout@) && trimmed(decode_utf8(stdout@)).len() > 0 ==> (r matches Ok(s)
            && s@ == trimmed(decode_utf8(stdout@))),
{
    let s = match bytes_to_string(stdout) {
        Some(s) => s,
        None => {
            return Err(ChildFailureError::NonUtf8Output);
        },
    };
    let t = trim_str(s.as_str());
    if t.unicode_len() == 0 {
        return Err(ChildFailureError::EmptyOutput);
    }
    Ok(t)
}

/// Structured decoder: the entire trimmed output must parse as a single
/// structured document; any decode failure is an error carrying the raw
/// trimmed text.
pub fn parse_cli_json_output(stdout: &[u8]) -> (r: Result<serde_json::Value, ChildFailureError>)
    ensures
        !valid_utf8(stdout@) ==> r matches Err(ChildFailureError::NonUtf8Output),
        valid_utf8(stdout@) && !json_parses(trimmed(decode_utf8(stdout@))) ==> (r matches Err(
            ChildFailureError::MalformedJson { raw },
        ) && raw@ == trimmed(decode_utf8(stdout@))),
        valid_utf8(stdout@) && json_parses(trimmed(decode_utf8(stdout@))) ==> r is Ok,
{
    let s = match bytes_to_string(stdout) {
        Some(s) => s,
        None => {
            return Err(ChildFailureError::NonUtf8Output);
        },
    };
    let t = trim_str(s.as_str());
    match parse_json_value(t.as_str()) {
        Some(v) => Ok(v),
        None => Err(ChildFailureError::MalformedJson { raw: t }),
    }
}

/// Decide the outcome of a one-shot invocation whose output must be a
/// structured document: nonzero exit is a failure carrying the diagnostic
/// text regardless of output, success hands the captured standard output to
/// the structured decoder.
pub fn one_shot_json(output: &CapturedOutput) -> (r: Result<serde_json::Value, ChildFailureError>)
    ensures
        !output.success ==> (r matches Err(ChildFailureError::ChildExit { detail })
            && detail@ == failure_detail_spec(output.stdout@, output.stderr@)),
        output.success && !valid_utf8(output.stdout@) ==> r matches Err(
            ChildFailureError::NonUtf8Output,
        ),
        output.success && valid_utf8(output.stdout@) && !json_parses(
            trimmed(decode_utf8(output.stdout@)),
        ) ==> (r matches Err(ChildFailureError::MalformedJson { raw }) && raw@ == trimmed(
            decode_utf8(output.stdout@),
        )),
        output.success && valid_utf8(output.stdout@) && json_parses(
            trimmed(decode_utf8(output.stdout@)),
        ) ==> r is Ok,
{
    if !output.success {
        let detail = failure_detail(output.stdout.as_slice(), output.stderr.as_slice());
        return Err(ChildFailureError::ChildExit { detail });
    }
    parse_cli_json_output(output.stdout.as_slice())
}

/// Decide the outcome of a one-shot invocation whose output must be a single
/// plain-text token: nonzero exit is a failure carrying the diagnostic text,
/// success hands the captured standard output to the plain-text decoder.
pub fn one_shot_text(output: &CapturedOutput) -> (r: Result<String, ChildFailureError>)
    ensures
        !output.success ==> (r matches Err(ChildFailureError::ChildExit { detail })
            && detail@ == failure_detail_spec(output.stdout@, output.stderr@)),
        output.success && !valid_utf8(output.stdout@) ==> r matches Err(
            ChildFailureError::NonUtf8Output,
        ),
        output.success && valid_utf8(output.stdout@) && trimmed(
            decode_utf8(output.stdout@),
        ).len() == 0 ==> r matches Err(ChildFailureError::EmptyOutput),
        output.success && valid_utf8(output.stdout@) && trimmed(
            decode_utf8(output.stdout@),
        ).len() > 0 ==> (r matches Ok(s) && s@ == trimmed(decode_utf8(output.stdout@))),
{
    if !output.success {
        let detail = failure_detail(output.stdout.as_slice(), output.stderr.as_slice());
        return Err(ChildFailureError::ChildExit { detail });
    }
    parse_cli_text_output(output.stdout.as_slice())
}

} // verus!
