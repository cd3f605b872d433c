use nrtm::launch::{exit_code, prepare_launch, Launch, LaunchError, SIGNALLED_EXIT_CODE};
use nrtm::shim::{selected_exe, system_executable, SlotStore, State, StateKind};

fn fresh(system_exe: Option<&str>) -> SlotStore {
    SlotStore { draft: None, current: None, old: None, system_exe: system_exe.map(String::from) }
}

fn text(s: &str) -> Option<String> {
    Some(s.to_string())
}

fn state(exe_path: Option<&str>, appname: Option<&str>) -> State {
    State { exe_path: exe_path.map(String::from), appname: appname.map(String::from) }
}

#[test]
fn read_after_write_returns_selection() {
    let selections = [
        state(Some("/x/nvim"), Some("a")),
        state(Some("/x/nvim"), None),
        state(None, Some("lazy")),
        state(None, None),
        state(Some("/opt/nvim/bin/nvim"), Some("multi\nline")),
    ];
    for s in selections {
        let mut store = fresh(Some("/usr/bin/nvim"));
        store.current = text("/y/nvim\n");
        s.write(&mut store);
        assert_eq!(store.current, text("/y/nvim\n"));
        assert_eq!(store.old, None);
        assert_eq!(State::read(&mut store), s);
    }
}

#[test]
fn encode_is_two_lines() {
    assert_eq!(state(Some("/x/nvim"), Some("a")).encode(), "/x/nvim\na");
    assert_eq!(state(None, None).encode(), "\n");
    assert_eq!(State::decode("/x/nvim\na\nb"), Some(state(Some("/x/nvim"), Some("a\nb"))));
    assert_eq!(State::decode("\n"), Some(state(None, None)));
    assert_eq!(State::decode("no newline"), None);
    assert_eq!(State::decode(""), None);
}

#[test]
fn read_initialises_missing_draft() {
    let mut store = fresh(Some("/usr/bin/nvim"));
    let s = State::read(&mut store);
    assert_eq!(s, state(Some("/usr/bin/nvim"), None));
    assert_eq!(store.draft, text("/usr/bin/nvim\n"));
    assert_eq!(store.current, None);
    assert_eq!(store.old, None);
}

#[test]
fn read_of_malformed_draft_is_default() {
    let mut store = fresh(Some("/usr/bin/nvim"));
    store.draft = text("garbage");
    assert_eq!(State::read(&mut store), state(Some("/usr/bin/nvim"), None));
    assert_eq!(store.draft, text("garbage"));
}

#[test]
fn read_from_other_slots() {
    let mut store = fresh(None);
    store.old = text("/o/nvim\nns");
    assert_eq!(State::read_from(&mut store, StateKind::Old), state(Some("/o/nvim"), Some("ns")));
    assert_eq!(State::read_from(&mut store, StateKind::Current), state(None, None));
    assert_eq!(store.current, text("\n"));
    state(Some("/c/nvim"), None).write_to(&mut store, StateKind::Current);
    assert_eq!(store.current, text("/c/nvim\n"));
}

#[test]
fn commit_is_idempotent() {
    let mut store = fresh(None);
    store.draft = text("/d/nvim\n");
    store.current = text("/c/nvim\n");
    State::draft_to_current(&mut store);
    assert_eq!(store.current, text("/d/nvim\n"));
    State::draft_to_current(&mut store);
    assert_eq!(store.current, text("/d/nvim\n"));
    assert_eq!(store.draft, text("/d/nvim\n"));
}

#[test]
fn commit_of_missing_draft_is_default() {
    let mut store = fresh(None);
    State::draft_to_current(&mut store);
    assert_eq!(store.current, text("\n"));
    let mut store = fresh(Some("/usr/bin/nvim"));
    State::draft_to_current(&mut store);
    assert_eq!(store.current, text("/usr/bin/nvim\n"));
}

#[test]
fn fresh_use_then_restore_twice_brings_selection_back() {
    let mut store = fresh(Some("/usr/bin/nvim"));
    let mut s = State::read(&mut store);
    s.exe_path = text("/x/nvim");
    s.write(&mut store);
    State::use_older_state(&mut store);
    assert_eq!(store.draft, text("/usr/bin/nvim\n"));
    assert_eq!(store.current, None);
    assert_eq!(store.old, text("/x/nvim\n"));
    State::use_older_state(&mut store);
    assert_eq!(store.draft, text("/x/nvim\n"));
    assert_eq!(store.current, text("/x/nvim\n"));
    assert_eq!(store.old, text("/usr/bin/nvim\n"));
    assert_eq!(State::read(&mut store), state(Some("/x/nvim"), None));
}

#[test]
fn rotate_treats_missing_slots_as_default() {
    let mut store = fresh(Some("/usr/bin/nvim"));
    store.draft = text("/usr/bin/nvim\n");
    State::use_older_state(&mut store);
    assert_eq!(store.draft, text("/usr/bin/nvim\n"));
    assert_eq!(store.current, text("/usr/bin/nvim\n"));
    assert_eq!(store.old, text("/usr/bin/nvim\n"));
}

#[test]
fn rotate_from_committed_state_is_self_inverse() {
    let mut store = fresh(None);
    store.draft = text("/x/nvim\n");
    store.current = text("/x/nvim\n");
    store.old = text("/y/nvim\n");
    State::use_older_state(&mut store);
    assert_eq!(store.current, text("/y/nvim\n"));
    assert_eq!(store.draft, text("/y/nvim\n"));
    assert_eq!(store.old, text("/x/nvim\n"));
    State::use_older_state(&mut store);
    assert_eq!(store.current, text("/x/nvim\n"));
    assert_eq!(store.draft, text("/x/nvim\n"));
    assert_eq!(store.old, text("/y/nvim\n"));
}

#[test]
fn rotate_discards_pending_draft() {
    let mut store = fresh(None);
    store.draft = text("/d/nvim\n");
    store.current = text("/c/nvim\n");
    store.old = text("/o/nvim\n");
    State::use_older_state(&mut store);
    assert_eq!(store.current, text("/c/nvim\n"));
    assert_eq!(store.draft, text("/c/nvim\n"));
    assert_eq!(store.old, text("/d/nvim\n"));
    State::use_older_state(&mut store);
    assert_eq!(store.current, text("/d/nvim\n"));
    assert_eq!(store.old, text("/c/nvim\n"));
}

#[test]
fn slot_kinds() {
    assert_eq!(StateKind::Draft.path(), "draft.shim");
    assert_eq!(StateKind::Current.path(), "current.shim");
    assert_eq!(StateKind::Old.path(), "old.shim");
    let mut store = fresh(None);
    assert!(StateKind::Draft.same_content(&store, StateKind::Current));
    StateKind::Old.write(&mut store, "x".to_string());
    assert!(!StateKind::Old.same_content(&store, StateKind::Current));
    StateKind::Draft.replace_with(&mut store, StateKind::Old);
    assert_eq!(StateKind::Draft.read(&store), text("x"));
    assert_eq!(StateKind::Current.content(&store), "\n");
    StateKind::Current.replace_with(&mut store, StateKind::Current);
    assert_eq!(store.current, text("\n"));
}

#[test]
fn fresh_install_end_to_end() {
    let mut store = fresh(system_executable(&vec![], "/home/u/.nrtm/bin").as_deref());
    assert_eq!(State::read(&mut store), state(None, None));
    let mut probe = SlotStore {
        draft: store.draft.clone(),
        current: store.current.clone(),
        old: store.old.clone(),
        system_exe: store.system_exe.clone(),
    };
    let before = State::read_from(&mut probe, StateKind::Current);
    assert_eq!(before, state(None, None));
    state(Some("/x/nvim"), Some("a")).write(&mut store);
    let draft = store.draft.clone();
    let launch = prepare_launch(&mut store, None).unwrap();
    assert_eq!(launch, Launch { exe_path: "/x/nvim".to_string(), appname: text("a") });
    assert_eq!(
        State::read_from(&mut store, StateKind::Current),
        state(Some("/x/nvim"), Some("a"))
    );
    assert_eq!(store.draft, draft);
    State::use_older_state(&mut store);
    assert_eq!(State::read_from(&mut store, StateKind::Current), before);
}

#[test]
fn system_executable_skips_own_dir() {
    let candidates = vec![
        "/home/u/.nrtm/bin/nvim".to_string(),
        "nvim".to_string(),
        "/usr/local/bin/nvim".to_string(),
        "/usr/bin/nvim".to_string(),
    ];
    assert_eq!(
        system_executable(&candidates, "/home/u/.nrtm/bin"),
        text("nvim")
    );
    assert_eq!(system_executable(&candidates[..1].to_vec(), "/home/u/.nrtm/bin"), None);
    assert_eq!(
        system_executable(&vec!["/home/u/.nrtm/bin/nvim".to_string()], "/home/u/.nrtm/bin/"),
        None
    );
    assert_eq!(
        system_executable(&vec!["/".to_string(), "/usr/bin/nvim".to_string()], "/home"),
        text("/usr/bin/nvim")
    );
}

#[test]
fn launch_prefers_environment_namespace() {
    let mut store = fresh(None);
    store.draft = text("/x/nvim\nstored");
    let launch = prepare_launch(&mut store, text("env")).unwrap();
    assert_eq!(launch.appname, text("env"));
    assert_eq!(store.current, text("/x/nvim\nstored"));
    let launch = prepare_launch(&mut store, None).unwrap();
    assert_eq!(launch.appname, text("stored"));
    store.draft = text("/x/nvim\n");
    assert_eq!(prepare_launch(&mut store, None).unwrap().appname, None);
}

#[test]
fn launch_fails_without_executable() {
    let mut store = fresh(None);
    assert_eq!(prepare_launch(&mut store, text("env")), Err(LaunchError::NotInstalled));
    assert_eq!(store.draft, text("\n"));
    assert_eq!(store.current, text("\n"));
}

#[test]
fn exit_codes() {
    assert_eq!(exit_code(Some(0)), 0);
    assert_eq!(exit_code(Some(3)), 3);
    assert_eq!(exit_code(None), SIGNALLED_EXIT_CODE);
    assert_ne!(SIGNALLED_EXIT_CODE, 0);
}

#[test]
fn use_selects_executable() {
    let store = fresh(Some("/usr/bin/nvim"));
    assert_eq!(selected_exe("system", "/i/system/bin/nvim".to_string(), &store), text("/usr/bin/nvim"));
    assert_eq!(selected_exe("v0.9.5", "/i/v0.9.5/bin/nvim".to_string(), &store), text("/i/v0.9.5/bin/nvim"));
    assert_eq!(selected_exe("system", String::new(), &fresh(None)), None);
}
