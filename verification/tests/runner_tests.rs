use maya_cleaner::errors::CleanError;
use maya_cleaner::runner::Mode;
use maya_cleaner::runner::build_command_args;
use maya_cleaner::runner::interpret_execution;
use maya_cleaner::runner::log_file_name;
use maya_cleaner::runner::mode_label;
use maya_cleaner::runner::path_has_scene_extension;
use maya_cleaner::runner::results_file_name;
use maya_cleaner::runner::script_candidates;

const WELL_FORMED: &str = "{\"status\":\"ok\",\"message\":\"done\",\"details\":[\"a.ma cleaned\"],\"cleaned_count\":1,\"processed_count\":1}";

#[test]
fn mode_labels() {
    assert_eq!(mode_label(Mode::Scene), "scene");
    assert_eq!(mode_label(Mode::Directory), "directory");
    assert_eq!(mode_label(Mode::User), "user");
}

#[test]
fn script_is_looked_for_in_two_fixed_places() {
    let v = script_candidates();
    assert_eq!(v, vec!["utils.py".to_string(), "src-tauri/utils.py".to_string()]);
}

#[test]
fn exchange_file_names_are_fixed() {
    assert_eq!(results_file_name(), "maya_cleaner_results.json");
    assert_eq!(log_file_name(), "maya_cleaner_log.txt");
}

#[test]
fn command_args_with_a_target() {
    let args = build_command_args(
        Mode::Scene,
        &Some("/s/a.ma".to_string()),
        "utils.py",
        "/tmp/maya_cleaner_log.txt",
        "/tmp/maya_cleaner_results.json",
    );
    assert_eq!(
        args,
        vec![
            "utils.py".to_string(),
            "--mode".to_string(),
            "scene".to_string(),
            "--log".to_string(),
            "/tmp/maya_cleaner_log.txt".to_string(),
            "--json".to_string(),
            "/tmp/maya_cleaner_results.json".to_string(),
            "--path".to_string(),
            "/s/a.ma".to_string(),
        ]
    );
}

#[test]
fn command_args_without_a_target() {
    let args = build_command_args(
        Mode::User,
        &None,
        "utils.py",
        "/tmp/maya_cleaner_log.txt",
        "/tmp/maya_cleaner_results.json",
    );
    assert_eq!(args.len(), 7);
    assert_eq!(args[2], "user");
    assert!(!args.contains(&"--path".to_string()));
}

#[test]
fn failure_with_a_log_file_reports_the_log_contents_exactly() {
    let r = interpret_execution(
        false,
        Some("the scene is corrupt\nline two".to_string()),
        "ignored stderr".to_string(),
        Some(WELL_FORMED.to_string()),
    );
    match r {
        Err(CleanError::ScriptExecution { detail }) => {
            assert_eq!(detail, "the scene is corrupt\nline two");
        }
        other => panic!("expected a script-execution error, got {:?}", other.is_ok()),
    }
}

#[test]
fn failure_without_a_log_file_reports_the_error_stream() {
    let r = interpret_execution(false, None, "boom".to_string(), None);
    match r {
        Err(CleanError::ScriptExecution { detail }) => {
            assert_eq!(detail, "boom");
            let e = CleanError::ScriptExecution { detail };
            assert_eq!(e.message(), "Maya cleaner script failed: boom");
        }
        _ => panic!("expected a script-execution error"),
    }
}

#[test]
fn success_with_a_well_formed_results_file_yields_the_report() {
    let r = interpret_execution(true, None, String::new(), Some(WELL_FORMED.to_string()))
        .expect("a zero exit with a well-formed results file succeeds");
    assert_eq!(r.status, "ok");
    assert_eq!(r.message, "done");
    assert_eq!(r.details, vec!["a.ma cleaned".to_string()]);
    assert_eq!(r.cleaned_count, 1);
    assert_eq!(r.processed_count, 1);
}

#[test]
fn success_without_a_results_file_is_a_missing_results_error() {
    let r = interpret_execution(true, None, String::new(), None);
    match r {
        Err(CleanError::ResultsMissing) => {}
        _ => panic!("expected a missing-results error"),
    }
}

#[test]
fn success_with_a_malformed_results_file_is_a_parse_error() {
    let r = interpret_execution(true, None, String::new(), Some("{not json".to_string()));
    match r {
        Err(CleanError::ResultsParse) => {}
        _ => panic!("expected a parse error"),
    }
}

#[test]
fn scene_extensions_are_matched_case_insensitively() {
    assert!(path_has_scene_extension("a.ma"));
    assert!(path_has_scene_extension("a.mb"));
    assert!(path_has_scene_extension("C:\\S\\SHOT.MA"));
    assert!(path_has_scene_extension("shot.Mb"));
    assert!(!path_has_scene_extension("notes.txt"));
    assert!(!path_has_scene_extension("a.mba"));
    assert!(!path_has_scene_extension("ma"));
    assert!(!path_has_scene_extension(""));
    assert!(!path_has_scene_extension("a.mc"));
}
