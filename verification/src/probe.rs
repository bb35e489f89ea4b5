//! Environment probes: sandbox detection, display-protocol detection,
//! existence checks for the capture files, and the media-validation verdict.

use vstd::prelude::*;

verus! {

/// The errors this library reports. An external helper that could not even
/// be launched is a fault; a checker that ran and said "invalid" is not.
#[derive(Clone, Copy, Debug, PartialEq, Eq, Structural)]
pub enum UtilError {
    LaunchFailure,
}

/// The code point of `c` with ASCII upper-case letters folded to lower case.
pub open spec fn lower_code(c: char) -> int {
    if 65 <= c as int && c as int <= 90 {
        c as int + 32
    } else {
        c as int
    }
}

/// Two characters are equal up to ASCII case.
pub open spec fn chars_eq_ignore_case(a: char, b: char) -> bool {
    lower_code(a) == lower_code(b)
}

/// Two character sequences are equal up to ASCII case.
pub open spec fn seq_eq_ignore_case(a: Seq<char>, b: Seq<char>) -> bool {
    &&& a.len() == b.len()
    &&& forall|i: int| 0 <= i < a.len() ==> chars_eq_ignore_case(a[i], b[i])
}

/// The token that names the wayland display protocol.
pub open spec fn wayland_token() -> Seq<char> {
    seq!['w', 'a', 'y', 'l', 'a', 'n', 'd']
}

fn lower_code_exec(c: char) -> (code: u32)
    ensures
        code == lower_code(c),
{
    let raw: u32 = c as u32;
    if 65 <= raw && raw <= 90 {
        raw + 32
    } else {
        raw
    }
}

/// Compare two strings for equality up to ASCII case.
fn str_eq_ignore_case(a: &str, b: &str) -> (r: bool)
    ensures
        r == seq_eq_ignore_case(a@, b@),
{
    let a_len: usize = a.unicode_len();
    let b_len: usize = b.unicode_len();
    if a_len != b_len {
        return false;
    }
    let mut i: usize = 0;
    while i < a_len
        invariant
            i <= a_len,
            a_len == a@.len(),
            a_len == b@.len(),
            forall|j: int| 0 <= j < i ==> chars_eq_ignore_case(a@[j], b@[j]),
        decreases a_len - i,
    {
        let ca: char = a.get_char(i);
        let cb: char = b.get_char(i);
        if lower_code_exec(ca) != lower_code_exec(cb) {
            return false;
        }
        i += 1;
    }
    true
}

/// Sandbox detection: the sandbox environment variable marks a sandboxed
/// install exactly when it is present with a non-empty value; whitespace
/// counts, absence and the empty string do not.
pub fn is_snap(snap_var: &Option<String>) -> (sandboxed: bool)
    ensures
        sandboxed == (snap_var matches Some(value) && value@.len() > 0),
{
    match snap_var {
        Some(value) => !value.as_str().is_empty(),
        None => false,
    }
}

/// Display-protocol detection: the session-type environment variable names a
/// wayland session exactly when it equals the wayland token up to ASCII case;
/// absence and every other value do not.
pub fn is_wayland(session_type_var: &Option<String>) -> (wayland: bool)
    ensures
        wayland == (session_type_var matches Some(value) && seq_eq_ignore_case(
            value@,
            wayland_token(),
        )),
{
    match session_type_var {
        Some(value) => {
            proof {
                reveal_strlit("wayland");
                assert("wayland"@ =~= wayland_token());
            }
            str_eq_ignore_case(value.as_str(), "wayland")
        },
        None => false,
    }
}

/// Wayland detection cannot tell two spellings of one value apart: inputs
/// that agree up to ASCII case get one and the same answer.
pub proof fn lemma_wayland_case_insensitive(a: Seq<char>, b: Seq<char>)
    requires
        seq_eq_ignore_case(a, b),
    ensures
        seq_eq_ignore_case(a, wayland_token()) == seq_eq_ignore_case(b, wayland_token()),
{
}

/// Relies on std::path::Path::exists: whether some filesystem entry exists at
/// the path at the time of the call. The answer depends on the state of the
/// filesystem, so nothing is promised of it.
#[verifier::external_body]
fn path_exists(path: &str) -> bool {
    std::path::Path::new(path).exists()
}

/// Whether the temporary input audio capture file exists right now.
pub fn is_input_audio_record(audio_filename: &str) -> bool {
    path_exists(audio_filename)
}

/// Whether the output audio capture file exists right now.
pub fn is_output_audio_record(audio_filename: &str) -> bool {
    path_exists(audio_filename)
}

/// Whether the temporary video capture file exists right now.
pub fn is_video_record(video_filename: &str) -> bool {
    path_exists(video_filename)
}

/// The command line that asks the external stream-integrity checker for a
/// full decode of one file, error-only logging, and no container output.
pub struct CheckerInvocation {
    pub program: String,
    pub args: Vec<String>,
}

/// Build the checker invocation for one media file.
pub fn validator_command(filename: &str) -> (cmd: CheckerInvocation)
    ensures
        cmd.program@ == "ffmpeg"@,
        cmd.args@.len() == 7,
        cmd.args@[0]@ == "-v"@,
        cmd.args@[1]@ == "error"@,
        cmd.args@[2]@ == "-i"@,
        cmd.args@[3]@ == filename@,
        cmd.args@[4]@ == "-f"@,
        cmd.args@[5]@ == "null"@,
        cmd.args@[6]@ == "-"@,
{
    let mut args: Vec<String> = Vec::new();
    args.push("-v".to_owned());
    args.push("error".to_owned());
    args.push("-i".to_owned());
    args.push(filename.to_owned());
    args.push("-f".to_owned());
    args.push("null".to_owned());
    args.push("-".to_owned());
    CheckerInvocation { program: "ffmpeg".to_owned(), args }
}

/// What came of launching the external stream-integrity checker: it ran to
/// completion with some exit verdict, or it could not be launched at all.
#[derive(Clone, Copy, Debug, PartialEq, Eq, Structural)]
pub enum CheckerOutcome {
    Finished { success: bool },
    NotLaunched,
}

/// The media-validation verdict. A checker that ran decides the answer by its
/// exit status alone — a corrupted recording is a normal `false`, not an
/// error; only a checker that could not be launched is a fault.
pub fn is_valide(outcome: &CheckerOutcome) -> (verdict: Result<bool, UtilError>)
    ensures
        (*outcome matches CheckerOutcome::Finished { success } ==> verdict == Ok::<
            bool,
            UtilError,
        >(success)),
        *outcome is NotLaunched ==> verdict == Err::<bool, UtilError>(UtilError::LaunchFailure),
{
    match outcome {
        CheckerOutcome::Finished { success } => Ok(*success),
        CheckerOutcome::NotLaunched => Err(UtilError::LaunchFailure),
    }
}

} // verus!
