use maya_cleaner::errors::CleanError;
use maya_cleaner::pipeline::Pipeline;
use maya_cleaner::pipeline::Reply;
use maya_cleaner::pipeline::Step;
use maya_cleaner::runner::Mode;

const WELL_FORMED: &str = "{\"status\":\"ok\",\"message\":\"done\",\"details\":[\"a.ma cleaned\"],\"cleaned_count\":1,\"processed_count\":1}";

const EXE: &str = "C:\\Program Files\\Autodesk\\Maya2025\\bin\\mayapy.exe";

fn five_roots() -> Vec<String> {
    vec![
        "/cwd".to_string(),
        "/exe".to_string(),
        "/home/kay".to_string(),
        "/home/kay/Downloads".to_string(),
        "/home/kay/Documents".to_string(),
    ]
}

#[test]
fn user_scope_request_runs_without_a_path() {
    let mut p = Pipeline::new(Mode::User, None, "/tmp".to_string());
    match p.start() {
        Step::LocateInterpreter => {}
        _ => panic!("a no-path request starts by locating the interpreter"),
    }
    let s = p.advance(Reply::InterpreterLocated { outcome: Ok(EXE.to_string()) });
    match s {
        Step::ProbeScript { locations } => {
            assert_eq!(locations, vec!["utils.py".to_string(), "src-tauri/utils.py".to_string()]);
        }
        _ => panic!("after the interpreter the script is looked for"),
    }
    let s = p.advance(Reply::ScriptProbed { found: vec![true, false] });
    let plan = match s {
        Step::Launch { plan } => plan,
        _ => panic!("an existing script is launched"),
    };
    assert_eq!(plan.program, EXE);
    assert_eq!(
        plan.args,
        vec![
            "utils.py".to_string(),
            "--mode".to_string(),
            "user".to_string(),
            "--log".to_string(),
            "/tmp/maya_cleaner_log.txt".to_string(),
            "--json".to_string(),
            "/tmp/maya_cleaner_results.json".to_string(),
        ]
    );
    let s = p.advance(Reply::Launched {
        exit_ok: true,
        log: None,
        error_text: String::new(),
        results: Some(WELL_FORMED.to_string()),
    });
    match s {
        Step::Finished { outcome } => {
            let r = outcome.expect("the run succeeded");
            assert_eq!(r.status, "ok");
            assert_eq!(r.cleaned_count, 1);
            assert_eq!(r.processed_count, 1);
            assert_eq!(r.details, vec!["a.ma cleaned".to_string()]);
        }
        _ => panic!("the launch reply finishes the request"),
    }
}

#[test]
fn scene_request_resolves_a_relative_path_first() {
    let mut p = Pipeline::new(Mode::Scene, Some("shot.ma".to_string()), "/tmp".to_string());
    match p.start() {
        Step::ProbeRoots { relative } => assert_eq!(relative, "shot.ma"),
        _ => panic!("a relative path is resolved first"),
    }
    let s = p.advance(Reply::RootsProbed {
        roots: five_roots(),
        joined_exists: vec![false, false, true, false, false],
    });
    match s {
        Step::CheckTarget { path, expect_directory } => {
            assert_eq!(path, "/home/kay/shot.ma");
            assert!(!expect_directory);
        }
        _ => panic!("the resolved target is existence-checked next"),
    }
    let s = p.advance(Reply::TargetChecked { present: true, is_directory: false });
    match s {
        Step::LocateInterpreter => {}
        _ => panic!("a valid scene file goes on to the interpreter"),
    }
    let s = p.advance(Reply::InterpreterLocated { outcome: Ok(EXE.to_string()) });
    match s {
        Step::ProbeScript { .. } => {}
        _ => panic!("after the interpreter the script is looked for"),
    }
    let s = p.advance(Reply::ScriptProbed { found: vec![false, true] });
    match s {
        Step::Launch { plan } => {
            assert_eq!(plan.args[0], "src-tauri/utils.py");
            assert_eq!(plan.args[2], "scene");
            assert_eq!(plan.args[7], "--path");
            assert_eq!(plan.args[8], "/home/kay/shot.ma");
        }
        _ => panic!("an existing script is launched"),
    }
}

#[test]
fn scene_request_with_an_absolute_path_skips_resolution() {
    let p = Pipeline::new(
        Mode::Scene,
        Some("C:\\scenes\\shot.ma".to_string()),
        "/tmp".to_string(),
    );
    match p.start() {
        Step::CheckTarget { path, expect_directory } => {
            assert_eq!(path, "C:\\scenes\\shot.ma");
            assert!(!expect_directory);
        }
        _ => panic!("an absolute path goes straight to the existence check"),
    }
}

#[test]
fn wrong_extension_is_rejected_before_any_subprocess() {
    let mut p = Pipeline::new(
        Mode::Scene,
        Some("C:\\scenes\\notes.txt".to_string()),
        "/tmp".to_string(),
    );
    match p.start() {
        Step::CheckTarget { .. } => {}
        _ => panic!("an absolute path goes straight to the existence check"),
    }
    // The very next step is already the outcome: no interpreter is located,
    // no script is probed, and no Launch step is ever produced.
    let s = p.advance(Reply::TargetChecked { present: true, is_directory: false });
    match s {
        Step::Finished { outcome } => match outcome {
            Err(CleanError::WrongFileType { path }) => {
                assert_eq!(path, "C:\\scenes\\notes.txt");
                let e = CleanError::WrongFileType { path };
                assert_eq!(
                    e.message(),
                    "File is not a Maya file (.ma or .mb): C:\\scenes\\notes.txt"
                );
            }
            _ => panic!("the rejection is a wrong-file-type error"),
        },
        _ => panic!("a wrong extension settles the request at once"),
    }
}

#[test]
fn missing_scene_file_is_rejected() {
    let mut p = Pipeline::new(Mode::Scene, Some("/gone.ma".to_string()), "/tmp".to_string());
    let s = p.advance(Reply::TargetChecked { present: false, is_directory: false });
    match s {
        Step::Finished { outcome } => match outcome {
            Err(CleanError::FileNotFound { path }) => assert_eq!(path, "/gone.ma"),
            _ => panic!("a missing file is a file-not-found error"),
        },
        _ => panic!("a missing file settles the request at once"),
    }
}

#[test]
fn directory_request_requires_a_directory() {
    let mut p = Pipeline::new(Mode::Directory, Some("/a/file".to_string()), "/tmp".to_string());
    match p.start() {
        Step::CheckTarget { expect_directory, .. } => assert!(expect_directory),
        _ => panic!("an absolute path goes straight to the existence check"),
    }
    let s = p.advance(Reply::TargetChecked { present: true, is_directory: false });
    match s {
        Step::Finished { outcome } => match outcome {
            Err(CleanError::DirectoryNotFound { path }) => assert_eq!(path, "/a/file"),
            _ => panic!("a non-directory is a directory-not-found error"),
        },
        _ => panic!("a non-directory settles the request at once"),
    }
}

#[test]
fn interpreter_failure_is_passed_through() {
    let mut p = Pipeline::new(Mode::User, None, "/tmp".to_string());
    let s = p.advance(Reply::InterpreterLocated {
        outcome: Err(CleanError::ExecutableNotFound),
    });
    match s {
        Step::Finished { outcome } => match outcome {
            Err(CleanError::ExecutableNotFound) => {}
            _ => panic!("the locator's error is the outcome"),
        },
        _ => panic!("a failed locate settles the request"),
    }
}

#[test]
fn missing_script_reports_both_locations() {
    let mut p = Pipeline::new(Mode::User, None, "/tmp".to_string());
    p.advance(Reply::InterpreterLocated { outcome: Ok(EXE.to_string()) });
    let s = p.advance(Reply::ScriptProbed { found: vec![false, false] });
    match s {
        Step::Finished { outcome } => match outcome {
            Err(e @ CleanError::ScriptNotFound { .. }) => {
                assert_eq!(
                    e.message(),
                    "Cleaner script not found. Checked locations: utils.py, src-tauri/utils.py"
                );
            }
            _ => panic!("a missing script is a script-not-found error"),
        },
        _ => panic!("a missing script settles the request"),
    }
}

#[test]
fn failed_launch_prefers_the_log_file() {
    let mut p = Pipeline::new(Mode::User, None, "/tmp".to_string());
    p.advance(Reply::InterpreterLocated { outcome: Ok(EXE.to_string()) });
    p.advance(Reply::ScriptProbed { found: vec![true, true] });
    let s = p.advance(Reply::Launched {
        exit_ok: false,
        log: Some("oops".to_string()),
        error_text: "boom".to_string(),
        results: None,
    });
    match s {
        Step::Finished { outcome } => match outcome {
            Err(CleanError::ScriptExecution { detail }) => assert_eq!(detail, "oops"),
            _ => panic!("a non-zero exit is a script-execution error"),
        },
        _ => panic!("the launch reply finishes the request"),
    }
}

#[test]
fn failed_launch_without_a_log_uses_the_error_stream() {
    let mut p = Pipeline::new(Mode::User, None, "/tmp".to_string());
    p.advance(Reply::InterpreterLocated { outcome: Ok(EXE.to_string()) });
    p.advance(Reply::ScriptProbed { found: vec![true, false] });
    let s = p.advance(Reply::Launched {
        exit_ok: false,
        log: None,
        error_text: "boom".to_string(),
        results: Some(WELL_FORMED.to_string()),
    });
    match s {
        Step::Finished { outcome } => match outcome {
            Err(CleanError::ScriptExecution { detail }) => assert_eq!(detail, "boom"),
            _ => panic!("a non-zero exit is a script-execution error"),
        },
        _ => panic!("the launch reply finishes the request"),
    }
}

#[test]
fn successful_launch_without_results_file_is_an_error() {
    let mut p = Pipeline::new(Mode::User, None, "/tmp".to_string());
    p.advance(Reply::InterpreterLocated { outcome: Ok(EXE.to_string()) });
    p.advance(Reply::ScriptProbed { found: vec![true, false] });
    let s = p.advance(Reply::Launched {
        exit_ok: true,
        log: None,
        error_text: String::new(),
        results: None,
    });
    match s {
        Step::Finished { outcome } => match outcome {
            Err(CleanError::ResultsMissing) => {}
            _ => panic!("a zero exit without a results file breaks the contract"),
        },
        _ => panic!("the launch reply finishes the request"),
    }
}

#[test]
fn directory_request_runs_with_the_directory_as_target() {
    let mut p = Pipeline::new(Mode::Directory, Some("/renders".to_string()), "/tmp".to_string());
    let s = p.advance(Reply::TargetChecked { present: true, is_directory: true });
    match s {
        Step::LocateInterpreter => {}
        _ => panic!("an existing directory goes on to the interpreter"),
    }
    p.advance(Reply::InterpreterLocated { outcome: Ok(EXE.to_string()) });
    let s = p.advance(Reply::ScriptProbed { found: vec![true, false] });
    match s {
        Step::Launch { plan } => {
            assert_eq!(plan.args[2], "directory");
            assert_eq!(plan.args[7], "--path");
            assert_eq!(plan.args[8], "/renders");
        }
        _ => panic!("an existing script is launched"),
    }
}

#[test]
fn malformed_results_file_after_a_launch_is_a_parse_error() {
    let mut p = Pipeline::new(Mode::User, None, "/tmp".to_string());
    p.advance(Reply::InterpreterLocated { outcome: Ok(EXE.to_string()) });
    p.advance(Reply::ScriptProbed { found: vec![true, false] });
    let s = p.advance(Reply::Launched {
        exit_ok: true,
        log: None,
        error_text: String::new(),
        results: Some("{\"status\":1}".to_string()),
    });
    match s {
        Step::Finished { outcome } => match outcome {
            Err(CleanError::ResultsParse) => {}
            _ => panic!("a malformed results file is a parse error"),
        },
        _ => panic!("the launch reply finishes the request"),
    }
}
