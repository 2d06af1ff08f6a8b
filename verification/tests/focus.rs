use histdb_skim::focus::{
    focus_dir, focus_session, get_focus_dir, get_focus_session, reset_focus_dir,
    reset_focus_session, AppState,
};

#[test]
fn a_new_state_has_no_locks() {
    let state = AppState::new();
    assert_eq!(get_focus_session(&state), None);
    assert_eq!(get_focus_dir(&state), None);
}

#[test]
fn a_session_lock_is_read_back_and_lifted() {
    let mut state = AppState::new();
    focus_session(&mut state, "4711");
    assert_eq!(get_focus_session(&state), Some("4711".to_string()));
    assert_eq!(get_focus_dir(&state), None);
    focus_session(&mut state, "12");
    assert_eq!(get_focus_session(&state), Some("12".to_string()));
    reset_focus_session(&mut state);
    assert_eq!(get_focus_session(&state), None);
}

#[test]
fn a_directory_lock_is_read_back_and_lifted() {
    let mut state = AppState::new();
    focus_dir(&mut state, "/tmp/x");
    assert_eq!(get_focus_dir(&state), Some("/tmp/x".to_string()));
    assert_eq!(get_focus_session(&state), None);
    reset_focus_dir(&mut state);
    assert_eq!(get_focus_dir(&state), None);
}

#[test]
fn the_two_locks_do_not_touch_each_other() {
    let mut state = AppState::new();
    focus_session(&mut state, "1");
    focus_dir(&mut state, "/a");
    reset_focus_session(&mut state);
    assert_eq!(get_focus_dir(&state), Some("/a".to_string()));
    focus_session(&mut state, "2");
    reset_focus_dir(&mut state);
    assert_eq!(get_focus_session(&state), Some("2".to_string()));
    assert_eq!(get_focus_dir(&state), None);
}
