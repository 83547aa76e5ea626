use maya_cleaner::locate::ExecutableLocator;
use maya_cleaner::locate::LocateQuery;

const NEWEST: &str = "C:\\Program Files\\Autodesk\\Maya2025\\bin\\mayapy.exe";

#[test]
fn fresh_locator_asks_for_a_probe_newest_first() {
    let locator = ExecutableLocator::new();
    match locator.begin_locate() {
        LocateQuery::Probe(candidates) => {
            assert_eq!(candidates.len(), 6);
            assert_eq!(candidates[0], NEWEST);
            assert_eq!(candidates[5], "C:\\Program Files\\Autodesk\\Maya2020\\bin\\mayapy.exe");
        }
        LocateQuery::Cached(_) => panic!("a fresh locator has nothing cached"),
    }
}

#[test]
fn locate_twice_hits_the_cache_and_returns_the_identical_path() {
    let mut locator = ExecutableLocator::new();
    // First call: the probe finds the 2024 install (index 1).
    let found = vec![false, true, false, false, false, true];
    let first = locator
        .finish_locate(&found)
        .expect("a found candidate must be returned");
    assert_eq!(first, "C:\\Program Files\\Autodesk\\Maya2024\\bin\\mayapy.exe");
    // Second call: answered from the cache, no probe requested at all.
    match locator.begin_locate() {
        LocateQuery::Cached(second) => assert_eq!(second, first),
        LocateQuery::Probe(_) => panic!("the second locate must not probe again"),
    }
}

#[test]
fn failed_locate_leaves_the_cache_empty_and_retries() {
    let mut locator = ExecutableLocator::new();
    let err = locator
        .finish_locate(&vec![false, false, false, false, false, false])
        .expect_err("nothing exists, so nothing can be found");
    assert_eq!(
        err.message(),
        "Maya Python executable (mayapy.exe) not found. Please install Maya or specify the path manually."
    );
    // The failure was not cached: the next call probes again.
    match locator.begin_locate() {
        LocateQuery::Probe(candidates) => assert_eq!(candidates.len(), 6),
        LocateQuery::Cached(_) => panic!("a failure must not be cached"),
    }
    // And a later success still works.
    let ok = locator.finish_locate(&vec![true, false, false, false, false, false]);
    assert_eq!(ok.unwrap(), NEWEST);
}
