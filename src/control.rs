//! The control client's pure parts: the arguments of each daemon command and
//! the normalisation of a finished command into a value or an error.
use vstd::prelude::*;
use crate::dispatch::{strings, texts};
use crate::text::{trim, trim_text};

verus! {

/// What `String::from_utf8_lossy` makes of a byte sequence.
pub uninterp spec fn utf8_lossy(bytes: Seq<u8>) -> Seq<char>;

/// Relies on `String::from_utf8_lossy`: its text depends on the bytes alone,
/// and no bytes give no text.
#[verifier::external_body]
fn decode_lossy(bytes: &[u8]) -> (r: String)
    ensures
        r@ == utf8_lossy(bytes@),
        bytes@.len() == 0 ==> r@.len() == 0,
{
    String::from_utf8_lossy(bytes).into_owned()
}

pub open spec fn text_result(r: Result<String, String>) -> Result<Seq<char>, Seq<char>> {
    match r {
        Ok(s) => Ok(s@),
        Err(e) => Err(e@),
    }
}

/// A successful command gives its trimmed output, or `"ok"` when that is
/// empty; a failed one gives its trimmed error output, or `"command failed"`.
pub open spec fn normalized(success: bool, out: Seq<char>, err: Seq<char>) -> Result<
    Seq<char>,
    Seq<char>,
> {
    if success {
        if trim(out).len() == 0 {
            Ok("ok"@)
        } else {
            Ok(trim(out))
        }
    } else {
        if trim(err).len() == 0 {
            Err("command failed"@)
        } else {
            Err(trim(err))
        }
    }
}

pub fn normalize_output(success: bool, stdout: &str, stderr: &str) -> (r: Result<String, String>)
    ensures
        text_result(r) == normalized(success, stdout@, stderr@),
{
    if success {
        let out = trim_text(stdout);
        if out.unicode_len() == 0 {
            Ok(String::from_str("ok"))
        } else {
            Ok(out)
        }
    } else {
        let err = trim_text(stderr);
        if err.unicode_len() == 0 {
            Err(String::from_str("command failed"))
        } else {
            Err(err)
        }
    }
}

/// Normalises the exit status and captured output streams of a command.
pub fn collect_output(success: bool, stdout: &[u8], stderr: &[u8]) -> (r: Result<String, String>)
    ensures
        text_result(r) == normalized(success, utf8_lossy(stdout@), utf8_lossy(stderr@)),
{
    let out = decode_lossy(stdout);
    let err = decode_lossy(stderr);
    normalize_output(success, out.as_str(), err.as_str())
}

/// The error for output that does not decode: the decoder's message and the
/// raw output, both kept.
pub open spec fn decode_failure(error: Seq<char>, raw: Seq<char>) -> Seq<char> {
    "failed to parse command JSON output: "@ + error + "; output: "@ + raw
}

pub fn decode_failure_message(error: &str, raw: &str) -> (r: String)
    ensures
        r@ == decode_failure(error@, raw@),
{
    String::from_str("failed to parse command JSON output: ").concat(error).concat(
        "; output: ",
    ).concat(raw)
}

pub fn status_args() -> (r: Vec<String>)
    ensures
        texts(r@) == seq!["status"@],
{
    let r = strings(&["status"]);
    assert(texts(r@) =~= seq!["status"@]);
    r
}

pub fn daemon_info_args() -> (r: Vec<String>)
    ensures
        texts(r@) == seq!["daemon"@, "info"@],
{
    let r = strings(&["daemon", "info"]);
    assert(texts(r@) =~= seq!["daemon"@, "info"@]);
    r
}

pub fn daemon_start_args(addr: &str, public_base_url: &str) -> (r: Vec<String>)
    ensures
        texts(r@) == seq!["daemon"@, "start"@, "--addr"@, addr@, "--public-base-url"@, public_base_url@],
{
    let r = strings(&["daemon", "start", "--addr", addr, "--public-base-url", public_base_url]);
    assert(texts(r@) =~= seq!["daemon"@, "start"@, "--addr"@, addr@, "--public-base-url"@, public_base_url@]);
    r
}

pub fn daemon_stop_args(addr: &str) -> (r: Vec<String>)
    ensures
        texts(r@) == seq!["daemon"@, "stop"@, "--addr"@, addr@],
{
    let r = strings(&["daemon", "stop", "--addr", addr]);
    assert(texts(r@) =~= seq!["daemon"@, "stop"@, "--addr"@, addr@]);
    r
}

pub fn daemon_restart_args(addr: &str, public_base_url: &str) -> (r: Vec<String>)
    ensures
        texts(r@) == seq!["daemon"@, "restart"@, "--addr"@, addr@, "--public-base-url"@, public_base_url@],
{
    let r = strings(&["daemon", "restart", "--addr", addr, "--public-base-url", public_base_url]);
    assert(texts(r@) =~= seq!["daemon"@, "restart"@, "--addr"@, addr@, "--public-base-url"@, public_base_url@]);
    r
}

/// A directory is the project's source root when it holds `go.mod` and the
/// `cmd` and `internal` directories.
pub fn is_switchly_root(has_go_mod: bool, has_cmd_dir: bool, has_internal_dir: bool) -> (r: bool)
    ensures
        r == (has_go_mod && has_cmd_dir && has_internal_dir),
{
    has_go_mod && has_cmd_dir && has_internal_dir
}

/// Of the ancestors of the working directory, nearest first, each with its
/// root markers, the index of the first that is a source root.
pub fn find_repo_root(markers: &Vec<(bool, bool, bool)>) -> (r: Option<usize>)
    ensures
        match r {
            Some(i) => i < markers@.len() && markers@[i as int] == (true, true, true) && forall|
                k: int,
            | 0 <= k < i ==> #[trigger] markers@[k] != (true, true, true),
            None => forall|k: int|
                0 <= k < markers@.len() ==> #[trigger] markers@[k] != (true, true, true),
        },
{
    let mut i: usize = 0;
    while i < markers.len()
        invariant
            i <= markers@.len(),
            forall|k: int| 0 <= k < i ==> #[trigger] markers@[k] != (true, true, true),
        decreases markers@.len() - i,
    {
        let (a, b, c) = markers[i];
        if is_switchly_root(a, b, c) {
            return Some(i);
        }
        i = i + 1;
    }
    None
}

} // verus!
