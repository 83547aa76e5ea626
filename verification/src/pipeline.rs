//! The facade that drives one cleaning request from start to finish.
//!
//! A request runs as a fixed pipeline: resolve the user's path when the
//! operation has one, check that the target exists (and, for a single
//! file, carries a scene extension), locate the interpreter, find the
//! companion script, launch it, and read its outcome. The pipeline holds
//! the whole decision logic; the surrounding binary only performs what each
//! [`Step`] asks — a filesystem probe or the one subprocess — and hands the
//! plain answers back as a [`Reply`]. The spec function [`transition`] is
//! the full transition relation, and `advance` returns exactly what it
//! denotes.

use vstd::prelude::*;

use crate::errors::CleanError;
use crate::errors::CleanErrorV;
use crate::report::CleaningResult;
use crate::report::CleaningResultV;
use crate::resolve::is_absolute_path;
use crate::resolve::first_hit;
use crate::resolve::first_true;
use crate::resolve::lemma_first_hit;
use crate::resolve::join_parts;
use crate::resolve::join_path;
use crate::resolve::path_is_absolute;
use crate::resolve::resolve;
use crate::resolve::resolved_path;
use crate::runner::Mode;
use crate::runner::build_command_args;
use crate::runner::command_args;
use crate::runner::execution_verdict;
use crate::runner::has_scene_extension;
use crate::runner::interpret_execution;
use crate::runner::log_file_name;
use crate::runner::log_name;
use crate::runner::opt_view;
use crate::runner::path_has_scene_extension;
use crate::runner::results_file_name;
use crate::runner::results_name;
use crate::runner::script_candidate;
use crate::runner::script_candidates;

verus! {

/// One subprocess invocation, ready to launch: the interpreter to start
/// and its arguments in order.
pub struct CommandPlan {
    pub program: String,
    pub args: Vec<String>,
}

/// The mathematical shadow of a [`CommandPlan`].
#[verifier::ext_equal]
pub ghost struct CommandPlanV {
    pub program: Seq<char>,
    pub args: Seq<Seq<char>>,
}

impl View for CommandPlan {
    type V = CommandPlanV;

    open spec fn view(&self) -> CommandPlanV {
        CommandPlanV { program: self.program@, args: self.args.deep_view() }
    }
}

/// What the pipeline asks the surrounding binary to do next.
pub enum Step {
    /// For each of the five candidate roots, in their order, probe whether
    /// the root joined with this relative path exists; reply with
    /// `RootsProbed`.
    ProbeRoots { relative: String },
    /// Probe whether this path exists and whether it is a directory; reply
    /// with `TargetChecked`.
    CheckTarget { path: String, expect_directory: bool },
    /// Run the executable locator (its own two phases); reply with
    /// `InterpreterLocated`.
    LocateInterpreter,
    /// Probe these script locations for existence, in order; reply with
    /// `ScriptProbed`.
    ProbeScript { locations: Vec<String> },
    /// Launch the subprocess and wait for it; reply with `Launched`.
    Launch { plan: CommandPlan },
    /// The request is over; this is its outcome. No further reply is
    /// accepted.
    Finished { outcome: Result<CleaningResult, CleanError> },
}

/// The mathematical shadow of a [`Step`].
#[verifier::ext_equal]
pub ghost enum StepV {
    ProbeRoots { relative: Seq<char> },
    CheckTarget { path: Seq<char>, expect_directory: bool },
    LocateInterpreter,
    ProbeScript { locations: Seq<Seq<char>> },
    Launch { plan: CommandPlanV },
    Finished { outcome: Result<CleaningResultV, CleanErrorV> },
}

impl View for Step {
    type V = StepV;

    open spec fn view(&self) -> StepV {
        match self {
            Step::ProbeRoots { relative } => StepV::ProbeRoots { relative: relative@ },
            Step::CheckTarget { path, expect_directory } => StepV::CheckTarget {
                path: path@,
                expect_directory: *expect_directory,
            },
            Step::LocateInterpreter => StepV::LocateInterpreter,
            Step::ProbeScript { locations } => StepV::ProbeScript {
                locations: locations.deep_view(),
            },
            Step::Launch { plan } => StepV::Launch { plan: plan@ },
            Step::Finished { outcome } => StepV::Finished {
                outcome: match outcome {
                    Ok(c) => Ok(c@),
                    Err(e) => Err(e@),
                },
            },
        }
    }
}

/// The surrounding binary's answer to the pending [`Step`].
pub enum Reply {
    /// The five candidate roots, in their order, and for each whether the
    /// root joined with the relative path exists.
    RootsProbed { roots: Vec<String>, joined_exists: Vec<bool> },
    /// Whether the checked path exists, and whether it is a directory.
    TargetChecked { present: bool, is_directory: bool },
    /// What the executable locator returned.
    InterpreterLocated { outcome: Result<String, CleanError> },
    /// For each script location, in order, whether it exists.
    ScriptProbed { found: Vec<bool> },
    /// How the subprocess ended: whether it exited zero, the log file's
    /// contents when one exists and could be read, its error stream as
    /// text, and the results file's contents when one exists and could be
    /// read.
    Launched { exit_ok: bool, log: Option<String>, error_text: String, results: Option<String> },
}

/// The mathematical shadow of a [`Reply`].
#[verifier::ext_equal]
pub ghost enum ReplyV {
    RootsProbed { roots: Seq<Seq<char>>, joined_exists: Seq<bool> },
    TargetChecked { present: bool, is_directory: bool },
    InterpreterLocated { outcome: Result<Seq<char>, CleanErrorV> },
    ScriptProbed { found: Seq<bool> },
    Launched {
        exit_ok: bool,
        log: Option<Seq<char>>,
        error_text: Seq<char>,
        results: Option<Seq<char>>,
    },
}

impl View for Reply {
    type V = ReplyV;

    open spec fn view(&self) -> ReplyV {
        match self {
            Reply::RootsProbed { roots, joined_exists } => ReplyV::RootsProbed {
                roots: roots.deep_view(),
                joined_exists: joined_exists@,
            },
            Reply::TargetChecked { present, is_directory } => ReplyV::TargetChecked {
                present: *present,
                is_directory: *is_directory,
            },
            Reply::InterpreterLocated { outcome } => ReplyV::InterpreterLocated {
                outcome: match outcome {
                    Ok(p) => Ok(p@),
                    Err(e) => Err(e@),
                },
            },
            Reply::ScriptProbed { found } => ReplyV::ScriptProbed { found: found@ },
            Reply::Launched { exit_ok, log, error_text, results } => ReplyV::Launched {
                exit_ok: *exit_ok,
                log: match log {
                    Some(l) => Some(l@),
                    None => None,
                },
                error_text: error_text@,
                results: match results {
                    Some(d) => Some(d@),
                    None => None,
                },
            },
        }
    }
}

/// Where a request stands.
enum Phase {
    Resolving { raw: String },
    Checking { target: String },
    Locating { subject: Option<String> },
    FindingScript { subject: Option<String>, interpreter: String },
    Running,
    Settled,
}

/// The mathematical shadow of the pipeline's phase.
#[verifier::ext_equal]
pub ghost enum PhaseV {
    /// Awaiting the root probes for this relative path.
    Resolving { raw: Seq<char> },
    /// Awaiting the existence check of this resolved target.
    Checking { target: Seq<char> },
    /// Awaiting the interpreter; the operation's target, if it has one.
    Locating { subject: Option<Seq<char>> },
    /// Awaiting the script probes.
    FindingScript { subject: Option<Seq<char>>, interpreter: Seq<char> },
    /// Awaiting the subprocess outcome.
    Running,
    /// The outcome has been delivered.
    Settled,
}

/// One cleaning request in flight.
pub struct Pipeline {
    mode: Mode,
    temp_dir: String,
    phase: Phase,
}

/// The mathematical shadow of a [`Pipeline`].
#[verifier::ext_equal]
pub ghost struct PipelineV {
    pub mode: Mode,
    pub temp_dir: Seq<char>,
    pub phase: PhaseV,
}

impl View for Pipeline {
    type V = PipelineV;

    closed spec fn view(&self) -> PipelineV {
        PipelineV {
            mode: self.mode,
            temp_dir: self.temp_dir@,
            phase: match &self.phase {
                Phase::Resolving { raw } => PhaseV::Resolving { raw: raw@ },
                Phase::Checking { target } => PhaseV::Checking { target: target@ },
                Phase::Locating { subject } => PhaseV::Locating {
                    subject: match subject {
                        Some(s) => Some(s@),
                        None => None,
                    },
                },
                Phase::FindingScript { subject, interpreter } => PhaseV::FindingScript {
                    subject: match subject {
                        Some(s) => Some(s@),
                        None => None,
                    },
                    interpreter: interpreter@,
                },
                Phase::Running => PhaseV::Running,
                Phase::Settled => PhaseV::Settled,
            },
        }
    }
}

/// The phase a request starts in: with no path straight to locating the
/// interpreter; an absolute path skips resolution; a relative path is
/// resolved first.
pub open spec fn initial_phase(mode: Mode, raw: Option<Seq<char>>) -> PhaseV {
    match raw {
        None => PhaseV::Locating { subject: None },
        Some(p) => if is_absolute_path(p) {
            PhaseV::Checking { target: p }
        } else {
            PhaseV::Resolving { raw: p }
        },
    }
}

/// The pipeline's internal consistency: an operation on a path carries its
/// target; the no-path operation never resolves or checks one.
pub open spec fn wf(p: PipelineV) -> bool {
    match p.phase {
        PhaseV::Resolving { .. } => p.mode != Mode::User,
        PhaseV::Checking { .. } => p.mode != Mode::User,
        PhaseV::Locating { subject } => (p.mode == Mode::User) <==> (subject is None),
        PhaseV::FindingScript { subject, .. } => (p.mode == Mode::User) <==> (subject is None),
        PhaseV::Running => true,
        PhaseV::Settled => true,
    }
}

/// Whether this reply answers the step the pipeline is waiting for.
pub open spec fn awaiting(phase: PhaseV, r: ReplyV) -> bool {
    match (phase, r) {
        (PhaseV::Resolving { .. }, ReplyV::RootsProbed { roots, joined_exists }) => roots.len()
            == 5 && joined_exists.len() == 5,
        (PhaseV::Checking { .. }, ReplyV::TargetChecked { .. }) => true,
        (PhaseV::Locating { .. }, ReplyV::InterpreterLocated { .. }) => true,
        (PhaseV::FindingScript { .. }, ReplyV::ScriptProbed { found }) => found.len() == 2,
        (PhaseV::Running, ReplyV::Launched { .. }) => true,
        _ => false,
    }
}

/// A settled phase with an error outcome.
pub open spec fn settled_with(e: CleanErrorV) -> (PhaseV, StepV) {
    (PhaseV::Settled, StepV::Finished { outcome: Err(e) })
}

/// The pipeline's whole transition relation: from the current state and one
/// reply to the next phase and the step handed back to the caller. Only
/// pairs allowed by [`awaiting`] are meaningful.
pub open spec fn transition(p: PipelineV, r: ReplyV) -> (PhaseV, StepV) {
    match (p.phase, r) {
        (PhaseV::Resolving { raw }, ReplyV::RootsProbed { roots, joined_exists }) => {
            let t = resolved_path(raw, roots, joined_exists);
            (
                PhaseV::Checking { target: t },
                StepV::CheckTarget { path: t, expect_directory: p.mode == Mode::Directory },
            )
        },
        (PhaseV::Checking { target }, ReplyV::TargetChecked { present, is_directory }) => {
            if p.mode == Mode::Scene {
                if !present {
                    settled_with(CleanErrorV::FileNotFound { path: target })
                } else if !has_scene_extension(target) {
                    settled_with(CleanErrorV::WrongFileType { path: target })
                } else {
                    (PhaseV::Locating { subject: Some(target) }, StepV::LocateInterpreter)
                }
            } else {
                if !present || !is_directory {
                    settled_with(CleanErrorV::DirectoryNotFound { path: target })
                } else {
                    (PhaseV::Locating { subject: Some(target) }, StepV::LocateInterpreter)
                }
            }
        },
        (PhaseV::Locating { subject }, ReplyV::InterpreterLocated { outcome }) => {
            match outcome {
                Ok(exe) => (
                    PhaseV::FindingScript { subject, interpreter: exe },
                    StepV::ProbeScript {
                        locations: seq![script_candidate(0), script_candidate(1)],
                    },
                ),
                Err(e) => settled_with(e),
            }
        },
        (PhaseV::FindingScript { subject, interpreter }, ReplyV::ScriptProbed { found }) => {
            match first_hit(found) {
                Some(i) => {
                    let plan = CommandPlanV {
                        program: interpreter,
                        args: command_args(
                            p.mode,
                            subject,
                            script_candidate(i),
                            join_parts(p.temp_dir, log_name()),
                            join_parts(p.temp_dir, results_name()),
                        ),
                    };
                    (PhaseV::Running, StepV::Launch { plan })
                },
                None => settled_with(
                    CleanErrorV::ScriptNotFound {
                        first: script_candidate(0),
                        second: script_candidate(1),
                    },
                ),
            }
        },
        (PhaseV::Running, ReplyV::Launched { exit_ok, log, error_text, results }) => {
            (
                PhaseV::Settled,
                StepV::Finished { outcome: execution_verdict(exit_ok, log, error_text, results) },
            )
        },
        _ => (p.phase, StepV::LocateInterpreter),
    }
}

impl Pipeline {
    /// Opens a request: the mode, its target path for the single-file and
    /// directory operations, and the platform temp directory where the two
    /// exchange files will be put.
    pub fn new(mode: Mode, raw_path: Option<String>, temp_dir: String) -> (r: Pipeline)
        requires
            (mode == Mode::User) <==> (raw_path is None),
        ensures
            r@.mode == mode,
            r@.temp_dir == temp_dir@,
            r@.phase == initial_phase(mode, opt_view(raw_path)),
            wf(r@),
    {
        let phase = match raw_path {
            None => Phase::Locating { subject: None },
            Some(p) => {
                if path_is_absolute(p.as_str()) {
                    Phase::Checking { target: p }
                } else {
                    Phase::Resolving { raw: p }
                }
            },
        };
        Pipeline { mode, temp_dir, phase }
    }

    /// The first thing the caller must do for this request.
    pub fn start(&self) -> (s: Step)
        requires
            self@.phase matches PhaseV::Resolving { .. } || self@.phase matches PhaseV::Checking {
                ..
            } || self@.phase matches PhaseV::Locating { .. },
        ensures
            self@.phase matches PhaseV::Resolving { raw } ==> s@ == (StepV::ProbeRoots {
                relative: raw,
            }),
            self@.phase matches PhaseV::Checking { target } ==> s@ == (StepV::CheckTarget {
                path: target,
                expect_directory: self@.mode == Mode::Directory,
            }),
            self@.phase matches PhaseV::Locating { .. } ==> s@ == StepV::LocateInterpreter,
    {
        match &self.phase {
            Phase::Resolving { raw } => Step::ProbeRoots { relative: raw.clone() },
            Phase::Checking { target } => Step::CheckTarget {
                path: target.clone(),
                expect_directory: matches!(self.mode, Mode::Directory),
            },
            _ => Step::LocateInterpreter,
        }
    }

    /// Feeds the answer to the pending step and returns the next step:
    /// exactly what [`transition`] denotes.
    pub fn advance(&mut self, reply: Reply) -> (s: Step)
        requires
            wf(old(self)@),
            awaiting(old(self)@.phase, reply@),
        ensures
            wf(final(self)@),
            final(self)@.mode == old(self)@.mode,
            final(self)@.temp_dir == old(self)@.temp_dir,
            final(self)@.phase =~~= transition(old(self)@, reply@).0,
            s@ =~~= transition(old(self)@, reply@).1,
    {
        match reply {
            Reply::RootsProbed { roots, joined_exists } => {
                let raw = match &self.phase {
                    Phase::Resolving { raw } => raw.clone(),
                    _ => String::new(),
                };
                let target = resolve(raw.as_str(), &roots, &joined_exists);
                let expect_directory = matches!(self.mode, Mode::Directory);
                self.phase = Phase::Checking { target: target.clone() };
                Step::CheckTarget { path: target, expect_directory }
            },
            Reply::TargetChecked { present, is_directory } => {
                let target = match &self.phase {
                    Phase::Checking { target } => target.clone(),
                    _ => String::new(),
                };
                if matches!(self.mode, Mode::Scene) {
                    if !present {
                        self.phase = Phase::Settled;
                        Step::Finished {
                            outcome: Err(CleanError::FileNotFound { path: target }),
                        }
                    } else if !path_has_scene_extension(target.as_str()) {
                        self.phase = Phase::Settled;
                        Step::Finished {
                            outcome: Err(CleanError::WrongFileType { path: target }),
                        }
                    } else {
                        self.phase = Phase::Locating { subject: Some(target) };
                        Step::LocateInterpreter
                    }
                } else {
                    if !present || !is_directory {
                        self.phase = Phase::Settled;
                        Step::Finished {
                            outcome: Err(CleanError::DirectoryNotFound { path: target }),
                        }
                    } else {
                        self.phase = Phase::Locating { subject: Some(target) };
                        Step::LocateInterpreter
                    }
                }
            },
            Reply::InterpreterLocated { outcome } => {
                let subject = match &self.phase {
                    Phase::Locating { subject } => match subject {
                        Some(s) => Some(s.clone()),
                        None => None,
                    },
                    _ => None,
                };
                match outcome {
                    Ok(exe) => {
                        self.phase = Phase::FindingScript { subject, interpreter: exe };
                        Step::ProbeScript { locations: script_candidates() }
                    },
                    Err(e) => {
                        self.phase = Phase::Settled;
                        Step::Finished { outcome: Err(e) }
                    },
                }
            },
            Reply::ScriptProbed { found } => {
                let (subject, interpreter) = match &self.phase {
                    Phase::FindingScript { subject, interpreter } => (
                        match subject {
                            Some(s) => Some(s.clone()),
                            None => None,
                        },
                        interpreter.clone(),
                    ),
                    _ => (None, String::new()),
                };
                proof {
                    lemma_first_hit(found@);
                }
                match first_true(&found) {
                    Some(i) => {
                        let candidates = script_candidates();
                        let script = candidates[i].clone();
                        let log_path = join_path(self.temp_dir.as_str(), log_file_name());
                        let results_path = join_path(self.temp_dir.as_str(), results_file_name());
                        let args = build_command_args(
                            self.mode,
                            &subject,
                            script.as_str(),
                            log_path.as_str(),
                            results_path.as_str(),
                        );
                        self.phase = Phase::Running;
                        Step::Launch { plan: CommandPlan { program: interpreter, args } }
                    },
                    None => {
                        self.phase = Phase::Settled;
                        Step::Finished {
                            outcome: Err(
                                CleanError::ScriptNotFound {
                                    first: "utils.py".to_owned(),
                                    second: "src-tauri/utils.py".to_owned(),
                                },
                            ),
                        }
                    },
                }
            },
            Reply::Launched { exit_ok, log, error_text, results } => {
                let outcome = interpret_execution(exit_ok, log, error_text, results);
                self.phase = Phase::Settled;
                Step::Finished { outcome }
            },
        }
    }
}

/// Law: a single-file request whose existing target lacks a recognized
/// scene extension settles at the validation step with a wrong-file-type
/// error. The step handed back is already final, so the caller is never
/// asked to launch the interpreter — no subprocess is ever spawned for such
/// a request.
pub proof fn lemma_wrong_type_never_launches(p: PipelineV, is_directory: bool)
    requires
        wf(p),
        p.mode == Mode::Scene,
        p.phase matches PhaseV::Checking { target } && !has_scene_extension(target),
    ensures
        transition(p, ReplyV::TargetChecked { present: true, is_directory }).0 == PhaseV::Settled,
        p.phase matches PhaseV::Checking { target } ==> transition(
            p,
            ReplyV::TargetChecked { present: true, is_directory },
        ).1 == (StepV::Finished { outcome: Err(CleanErrorV::WrongFileType { path: target }) }),
        !(transition(p, ReplyV::TargetChecked { present: true, is_directory }).1 matches
        StepV::Launch { .. }),
{
}

/// Law: a settled pipeline accepts no further reply; once the outcome has
/// been delivered, nothing more is ever asked of the caller.
pub proof fn lemma_settled_is_terminal(r: ReplyV)
    ensures
        !awaiting(PhaseV::Settled, r),
{
}

} // verus!
