//! One invocation of the external cleaning script: where the script may
//! stand, how the command line is built, and what the finished subprocess
//! means — the success path through the results file and the failure path
//! through the log file or the error stream.

use vstd::prelude::*;
use vstd::string::StrSliceExecFns;
use vstd::string::StringExecFns;

use crate::errors::CleanError;
use crate::errors::CleanErrorV;
use crate::json::parse_report;
use crate::json::parse_cleaning_report;
use crate::report::CleaningResult;
use crate::report::CleaningResultV;

verus! {

/// The three operation selectors the script understands.
#[derive(Clone, Copy, PartialEq, Eq, Structural)]
pub enum Mode {
    Scene,
    Directory,
    User,
}

/// The selector word passed to the script for each mode.
pub open spec fn mode_word(m: Mode) -> Seq<char> {
    match m {
        Mode::Scene => "scene"@,
        Mode::Directory => "directory"@,
        Mode::User => "user"@,
    }
}

/// The selector word as a real string.
pub fn mode_label(m: Mode) -> (r: &'static str)
    ensures
        r@ == mode_word(m),
{
    match m {
        Mode::Scene => "scene",
        Mode::Directory => "directory",
        Mode::User => "user",
    }
}

/// The location, relative to the working directory, where the companion
/// script is looked for at priority `i`: beside the caller first, else in
/// the build staging directory.
pub open spec fn script_candidate(i: int) -> Seq<char> {
    if i == 0 {
        "utils.py"@
    } else {
        "src-tauri/utils.py"@
    }
}

/// Builds the two script locations, in probe order.
pub fn script_candidates() -> (v: Vec<String>)
    ensures
        v@.len() == 2,
        forall|i: int| 0 <= i < 2 ==> v.deep_view()[i] == script_candidate(i),
{
    let mut v: Vec<String> = Vec::new();
    v.push("utils.py".to_owned());
    v.push("src-tauri/utils.py".to_owned());
    proof {
        assert forall|i: int| 0 <= i < 2 implies v.deep_view()[i] == script_candidate(i) by {
            assert(v.deep_view()[i] == v@[i]@);
        }
    }
    v
}

/// The fixed name of the results file, under the platform temp directory.
/// The name is not unique per invocation, so two requests in flight at once
/// would collide; the design assumes one request at a time.
pub open spec fn results_name() -> Seq<char> {
    "maya_cleaner_results.json"@
}

/// [`results_name`] as a real string.
pub fn results_file_name() -> (r: &'static str)
    ensures
        r@ == results_name(),
{
    "maya_cleaner_results.json"
}

/// The fixed name of the log file, under the platform temp directory.
pub open spec fn log_name() -> Seq<char> {
    "maya_cleaner_log.txt"@
}

/// [`log_name`] as a real string.
pub fn log_file_name() -> (r: &'static str)
    ensures
        r@ == log_name(),
{
    "maya_cleaner_log.txt"
}

/// The view of an optional string.
pub open spec fn opt_view(o: Option<String>) -> Option<Seq<char>> {
    match o {
        Some(s) => Some(s@),
        None => None,
    }
}

/// The argument list of one invocation: the script, the mode selector, the
/// log and results destinations, and the target path when the operation has
/// one.
pub open spec fn command_args(
    mode: Mode,
    target: Option<Seq<char>>,
    script: Seq<char>,
    log_path: Seq<char>,
    results_path: Seq<char>,
) -> Seq<Seq<char>> {
    let base = seq![
        script,
        "--mode"@,
        mode_word(mode),
        "--log"@,
        log_path,
        "--json"@,
        results_path,
    ];
    match target {
        Some(t) => base + seq!["--path"@, t],
        None => base,
    }
}

/// Builds [`command_args`] as real strings.
pub fn build_command_args(
    mode: Mode,
    target: &Option<String>,
    script: &str,
    log_path: &str,
    results_path: &str,
) -> (v: Vec<String>)
    ensures
        v.deep_view() == command_args(
            mode,
            match target {
                Some(t) => Some(t@),
                None => None,
            },
            script@,
            log_path@,
            results_path@,
        ),
{
    let mut v: Vec<String> = Vec::new();
    v.push(script.to_owned());
    v.push("--mode".to_owned());
    v.push(mode_label(mode).to_owned());
    v.push("--log".to_owned());
    v.push(log_path.to_owned());
    v.push("--json".to_owned());
    v.push(results_path.to_owned());
    match target {
        Some(t) => {
            v.push("--path".to_owned());
            v.push(t.clone());
        },
        None => {},
    }
    proof {
        let goal = command_args(
            mode,
            match target {
                Some(t) => Some(t@),
                None => None,
            },
            script@,
            log_path@,
            results_path@,
        );
        assert forall|i: int| 0 <= i < v.deep_view().len() implies v.deep_view()[i] == goal[i] by {
            assert(v.deep_view()[i] == v@[i]@);
        }
        assert(v.deep_view() =~= goal);
    }
    v
}

/// What one finished subprocess means. A non-zero exit is a script failure
/// whose message is the log file's contents when a log was written, else
/// the raw error-stream text. A zero exit requires the results file: absent
/// means the script broke its contract, present means the report is
/// whatever the document denotes, or a parse failure when it denotes
/// nothing.
pub open spec fn execution_verdict(
    exit_ok: bool,
    log: Option<Seq<char>>,
    error_text: Seq<char>,
    results: Option<Seq<char>>,
) -> Result<CleaningResultV, CleanErrorV> {
    if !exit_ok {
        match log {
            Some(l) => Err(CleanErrorV::ScriptExecution { detail: l }),
            None => Err(CleanErrorV::ScriptExecution { detail: error_text }),
        }
    } else {
        match results {
            Some(doc) => match parse_report(doc) {
                Some(v) => Ok(v),
                None => Err(CleanErrorV::ResultsParse),
            },
            None => Err(CleanErrorV::ResultsMissing),
        }
    }
}

/// Decides [`execution_verdict`] on the real outcome of a subprocess:
/// `exit_ok` is whether it exited zero, `log` the log file's contents when
/// one exists and could be read, `error_text` its error stream as text, and
/// `results` the results file's contents when one exists and could be read.
pub fn interpret_execution(
    exit_ok: bool,
    log: Option<String>,
    error_text: String,
    results: Option<String>,
) -> (r: Result<CleaningResult, CleanError>)
    ensures
        match r {
            Ok(c) => execution_verdict(exit_ok, opt_view(log), error_text@, opt_view(results))
                == Ok::<CleaningResultV, CleanErrorV>(c@),
            Err(e) => execution_verdict(exit_ok, opt_view(log), error_text@, opt_view(results))
                == Err::<CleaningResultV, CleanErrorV>(e@),
        },
{
    if !exit_ok {
        match log {
            Some(l) => Err(CleanError::ScriptExecution { detail: l }),
            None => Err(CleanError::ScriptExecution { detail: error_text }),
        }
    } else {
        match results {
            Some(doc) => match parse_cleaning_report(doc.as_str()) {
                Some(c) => Ok(c),
                None => Err(CleanError::ResultsParse),
            },
            None => Err(CleanError::ResultsMissing),
        }
    }
}

/// The integer code of `c` with an upper-case ASCII letter folded to lower
/// case.
pub open spec fn lower_code(c: char) -> int {
    if 0x41 <= c as u32 && c as u32 <= 0x5a {
        c as u32 + 0x20
    } else {
        c as u32 as int
    }
}

/// Whether a path carries one of the two recognized scene-file extensions:
/// its final characters spell `.ma` or `.mb`, in either case.
pub open spec fn has_scene_extension(s: Seq<char>) -> bool {
    s.len() >= 3 && s[s.len() - 3] == '.' && lower_code(s[s.len() - 2]) == 0x6d && (lower_code(
        s[s.len() - 1],
    ) == 0x61 || lower_code(s[s.len() - 1]) == 0x62)
}

/// Decides [`has_scene_extension`] on a real string.
pub fn path_has_scene_extension(s: &str) -> (r: bool)
    ensures
        r == has_scene_extension(s@),
{
    let n = s.unicode_len();
    if n < 3 {
        return false;
    }
    if s.get_char(n - 3) != '.' {
        return false;
    }
    let m = s.get_char(n - 2) as u32;
    let m_low = if 0x41 <= m && m <= 0x5a {
        m + 0x20
    } else {
        m
    };
    if m_low != 0x6d {
        return false;
    }
    let e = s.get_char(n - 1) as u32;
    let e_low = if 0x41 <= e && e <= 0x5a {
        e + 0x20
    } else {
        e
    };
    e_low == 0x61 || e_low == 0x62
}

} // verus!
