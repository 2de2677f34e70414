use xrpicker::app_state::{AppState, PersistentAppState};
use xrpicker::linux::{make_platform, LinuxActiveRuntimeData, LinuxCandidate, LinuxRuntime};
use xrpicker::manifest::{Runtime, RuntimeManifest};
use xrpicker::platform::{holds_path, is_same_runtime, push_unique, same_paths};
use xrpicker::windows::{WindowsCandidate, WindowsRuntime};
use xrpicker::{Error, ManifestError};

fn manifest(name: &str) -> RuntimeManifest {
    RuntimeManifest::new(
        "1.0.0".to_string(),
        Runtime {
            library_path: "librt.so".to_string(),
            name: Some(name.to_string()),
            functions: None,
        },
    )
}

fn runtime(orig: &str, canonical: &str) -> LinuxRuntime {
    LinuxRuntime::new(orig, canonical, Ok(manifest(canonical))).unwrap()
}

fn strings(items: &[&str]) -> Vec<String> {
    items.iter().map(|s| s.to_string()).collect()
}

fn names(state: &AppState<LinuxRuntime, LinuxActiveRuntimeData>) -> Vec<String> {
    state
        .runtimes
        .iter()
        .map(|r| r.get_base().get_manifest_path().to_string())
        .collect()
}

fn state_of(runtimes: Vec<LinuxRuntime>) -> AppState<LinuxRuntime, LinuxActiveRuntimeData> {
    AppState::new(Ok((runtimes, Vec::new())), LinuxActiveRuntimeData(None)).unwrap()
}

#[test]
fn extra_paths_are_deduplicated_in_order() {
    let mut state = PersistentAppState::new();
    state.append_new_extra_paths(strings(&["/b.json", "/a.json", "/b.json"]));
    assert_eq!(state.extra_paths, strings(&["/b.json", "/a.json"]));
    state.append_new_extra_paths(strings(&["/a.json", "/c.json", "/b.json", "/c.json"]));
    assert_eq!(state.extra_paths, strings(&["/b.json", "/a.json", "/c.json"]));
    assert_eq!(
        state.iterate_extra_paths(),
        strings(&["/b.json", "/a.json", "/c.json"])
    );
}

#[test]
fn appending_nothing_leaves_the_list_untouched() {
    let mut state = PersistentAppState {
        extra_paths: strings(&["/a.json", "/a.json"]),
    };
    state.append_new_extra_paths(Vec::new());
    assert_eq!(state.extra_paths, strings(&["/a.json", "/a.json"]));
    state.append_new_extra_paths(strings(&["/b.json"]));
    assert_eq!(state.extra_paths, strings(&["/a.json", "/b.json"]));
    assert!(PersistentAppState::default().extra_paths.is_empty());
}

#[test]
fn stored_extra_paths_survive_being_supplied_again() {
    let mut state = PersistentAppState::new();
    state.append_new_extra_paths(strings(&["/x.json", "/y.json"]));
    let saved = state.iterate_extra_paths();
    let mut loaded = PersistentAppState::new();
    loaded.append_new_extra_paths(saved.clone());
    assert_eq!(loaded.extra_paths, state.extra_paths);
    loaded.append_new_extra_paths(saved);
    assert_eq!(loaded.extra_paths, state.extra_paths);
}

#[test]
fn push_unique_adds_only_what_is_missing() {
    let mut paths = strings(&["/a", "/b"]);
    push_unique(&mut paths, "/a".to_string());
    assert_eq!(paths, strings(&["/a", "/b"]));
    push_unique(&mut paths, "/c".to_string());
    assert_eq!(paths, strings(&["/a", "/b", "/c"]));
    assert!(holds_path(&paths, &"/c".to_string()));
    assert!(!holds_path(&paths, &"/d".to_string()));
}

#[test]
fn identity_is_the_set_of_manifest_paths() {
    assert!(same_paths(&strings(&["a", "b"]), &strings(&["b", "a"])));
    assert!(same_paths(&Vec::new(), &Vec::new()));
    assert!(!same_paths(&strings(&["a"]), &strings(&["a", "a"])));
    assert!(!same_paths(&strings(&["a", "b"]), &strings(&["a", "c"])));
    assert!(!same_paths(&strings(&["a"]), &Vec::new()));
    assert!(is_same_runtime(
        &runtime("/link/a.json", "/t/a.json"),
        &runtime("/other/a.json", "/t/a.json")
    ));
    assert!(!is_same_runtime(
        &runtime("/t/a.json", "/t/a.json"),
        &runtime("/t/a.json", "/t/b.json")
    ));
    let candidate = |path: &str| WindowsCandidate {
        path: path.to_string(),
        canonical_path: Some(path.to_string()),
        loaded: Ok(manifest(path)),
    };
    let (x, y) = (candidate("C:\\A\\x.json"), candidate("C:\\A\\y.json"));
    let one = WindowsRuntime::new(Some(&x), Some(&y)).unwrap();
    let swapped = WindowsRuntime::new(Some(&y), Some(&x)).unwrap();
    let half = WindowsRuntime::new(Some(&x), None).unwrap();
    assert!(is_same_runtime(&one, &swapped));
    assert!(!is_same_runtime(&one, &half));
}

#[test]
fn new_keeps_what_enumeration_found() {
    let errors = vec![ManifestError(
        "/bad.json".to_string(),
        Error::ManifestVersionMismatch,
    )];
    let state = AppState::new(
        Ok((vec![runtime("/a", "/a"), runtime("/b", "/b")], errors.clone())),
        LinuxActiveRuntimeData(Some("/a".to_string())),
    )
    .unwrap();
    assert_eq!(names(&state), strings(&["/a", "/b"]));
    assert_eq!(state.nonfatal_errors, errors);
    assert_eq!(state.active_data, LinuxActiveRuntimeData(Some("/a".to_string())));
}

#[test]
fn fatal_enumeration_errors_are_handed_on() {
    let failed: Result<AppState<LinuxRuntime, LinuxActiveRuntimeData>, Error> = AppState::new(
        Err(Error::EnumerationError("registry".to_string())),
        LinuxActiveRuntimeData(None),
    );
    assert!(matches!(failed, Err(Error::EnumerationError(_))));
    let refreshed = state_of(vec![runtime("/a", "/a")]).refresh(
        Err(Error::EnumerationError("registry".to_string())),
        LinuxActiveRuntimeData(None),
    );
    assert!(matches!(refreshed, Err(Error::EnumerationError(_))));
}

#[test]
fn refresh_is_idempotent() {
    let state = state_of(vec![runtime("/a", "/a"), runtime("/b", "/b"), runtime("/c", "/c")]);
    let again = state
        .refresh(
            Ok((
                vec![runtime("/a", "/a"), runtime("/b", "/b"), runtime("/c", "/c")],
                Vec::new(),
            )),
            LinuxActiveRuntimeData(None),
        )
        .unwrap();
    assert_eq!(names(&again), strings(&["/a", "/b", "/c"]));
}

#[test]
fn refresh_preserves_order_and_appends_new_runtimes() {
    let state = state_of(vec![runtime("/link/b", "/b"), runtime("/a", "/a")]);
    let refreshed = state
        .refresh(
            Ok((
                vec![
                    runtime("/a", "/a"),
                    runtime("/new", "/new"),
                    runtime("/b", "/b"),
                    runtime("/new2", "/new"),
                ],
                vec![ManifestError("/bad".to_string(), Error::ManifestVersionMismatch)],
            )),
            LinuxActiveRuntimeData(Some("/new".to_string())),
        )
        .unwrap();
    assert_eq!(names(&refreshed), strings(&["/b", "/a", "/new"]));
    // the entry shown before stays, under the path it was first found by
    assert_eq!(refreshed.runtimes[0].get_orig_path(), "/link/b");
    assert_eq!(refreshed.runtimes[2].get_orig_path(), "/new");
    assert_eq!(refreshed.nonfatal_errors.len(), 1);
    assert_eq!(
        refreshed.active_data,
        LinuxActiveRuntimeData(Some("/new".to_string()))
    );
}

#[test]
fn refresh_keeps_runtimes_that_vanished_and_replaces_errors() {
    let state = AppState::new(
        Ok((
            vec![runtime("/a", "/a"), runtime("/b", "/b")],
            vec![ManifestError("/old".to_string(), Error::ManifestVersionMismatch)],
        )),
        LinuxActiveRuntimeData(Some("/a".to_string())),
    )
    .unwrap();
    let refreshed = state
        .refresh(
            Ok((vec![runtime("/b", "/b")], Vec::new())),
            LinuxActiveRuntimeData(None),
        )
        .unwrap();
    assert_eq!(names(&refreshed), strings(&["/a", "/b"]));
    assert!(refreshed.nonfatal_errors.is_empty());
    assert_eq!(refreshed.active_data, LinuxActiveRuntimeData(None));
}

#[test]
fn injected_extra_path_shows_up_once_after_refresh() {
    let platform = make_platform();
    let candidate = |path: &str| LinuxCandidate {
        orig_path: path.to_string(),
        canonical_path: Some(path.to_string()),
        loaded: Ok(manifest(path)),
    };
    let first = platform
        .find_available_runtimes(vec![candidate("/a"), candidate("/b")])
        .unwrap();
    let state = AppState::new(Ok(first), LinuxActiveRuntimeData(None)).unwrap();
    let mut persistent = PersistentAppState::new();
    persistent.append_new_extra_paths(strings(&["/extra", "/extra"]));
    let mut candidates = vec![candidate("/a"), candidate("/b")];
    for path in persistent.iterate_extra_paths() {
        candidates.push(candidate(&path));
    }
    let second = platform.find_available_runtimes(candidates);
    let state = state.refresh(second, LinuxActiveRuntimeData(None)).unwrap();
    assert_eq!(names(&state), strings(&["/a", "/b", "/extra"]));
    let third = platform.find_available_runtimes(vec![
        candidate("/extra"),
        candidate("/a"),
        candidate("/b"),
    ]);
    let state = state.refresh(third, LinuxActiveRuntimeData(None)).unwrap();
    assert_eq!(names(&state), strings(&["/a", "/b", "/extra"]));
}
