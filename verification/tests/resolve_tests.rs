use maya_cleaner::resolve::candidate_roots;
use maya_cleaner::resolve::join_path;
use maya_cleaner::resolve::path_is_absolute;
use maya_cleaner::resolve::resolve;

fn five_roots() -> Vec<String> {
    vec![
        "/work".to_string(),
        "/opt/tool".to_string(),
        "/home/kay".to_string(),
        "/home/kay/Downloads".to_string(),
        "/home/kay/Documents".to_string(),
    ]
}

#[test]
fn absolute_unix_path_is_returned_unchanged() {
    let r = resolve("/scenes/shot.ma", &five_roots(), &vec![true, true, true, true, true]);
    assert_eq!(r, "/scenes/shot.ma");
}

#[test]
fn absolute_drive_path_is_returned_unchanged() {
    let r = resolve(
        "C:\\scenes\\shot.ma",
        &five_roots(),
        &vec![false, false, false, false, false],
    );
    assert_eq!(r, "C:\\scenes\\shot.ma");
}

#[test]
fn relative_path_takes_highest_priority_existing_root() {
    // The same file name "exists" under three roots; the earliest wins.
    let r = resolve("shot.ma", &five_roots(), &vec![false, true, true, false, true]);
    assert_eq!(r, "/opt/tool/shot.ma");
}

#[test]
fn relative_path_under_exactly_one_root_resolves_there() {
    let r = resolve("shot.ma", &five_roots(), &vec![false, false, false, true, false]);
    assert_eq!(r, "/home/kay/Downloads/shot.ma");
}

#[test]
fn relative_path_under_no_root_is_returned_unchanged() {
    let r = resolve("shot.ma", &five_roots(), &vec![false, false, false, false, false]);
    assert_eq!(r, "shot.ma");
}

#[test]
fn probe_order_first_root_beats_all_others() {
    let r = resolve("shot.ma", &five_roots(), &vec![true, true, true, true, true]);
    assert_eq!(r, "/work/shot.ma");
}

#[test]
fn join_inserts_separator_only_when_needed() {
    assert_eq!(join_path("/home/kay", "x.ma"), "/home/kay/x.ma");
    assert_eq!(join_path("/home/kay/", "x.ma"), "/home/kay/x.ma");
    assert_eq!(join_path("C:\\tmp\\", "x.ma"), "C:\\tmp\\x.ma");
    assert_eq!(join_path("", "x.ma"), "/x.ma");
}

#[test]
fn candidate_roots_come_in_priority_order() {
    let v = candidate_roots("/cwd", "/exe", "/home/kay");
    assert_eq!(v.len(), 5);
    assert_eq!(v[0], "/cwd");
    assert_eq!(v[1], "/exe");
    assert_eq!(v[2], "/home/kay");
    assert_eq!(v[3], "/home/kay/Downloads");
    assert_eq!(v[4], "/home/kay/Documents");
}

#[test]
fn absoluteness_rule() {
    assert!(path_is_absolute("/x"));
    assert!(path_is_absolute("\\server\\share"));
    assert!(path_is_absolute("C:\\x"));
    assert!(path_is_absolute("c:/x"));
    assert!(!path_is_absolute("x/y.ma"));
    assert!(!path_is_absolute("shot.ma"));
    assert!(!path_is_absolute(""));
    assert!(!path_is_absolute("1:\\x"));
    assert!(!path_is_absolute("C:x"));
}
