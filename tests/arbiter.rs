use encrypted_editor::attempt::{Attempt, CloseFileAction};
use encrypted_editor::start_dir::pick_start_dir;

#[test]
fn check_passes_when_saved() {
    let mut a = Attempt::default();
    assert!(a.check_condition(true));
    assert!(!a.check_condition(false));
}

#[test]
fn override_passes_exactly_once() {
    let mut a = Attempt::default();
    a.allow_once();
    assert!(a.is_overridden());
    assert!(a.check_condition(false));
    assert!(!a.is_overridden());
    assert!(!a.check_condition(false));
}

#[test]
fn last_intent_wins() {
    let mut a = Attempt::default();
    assert_eq!(a.action(), None);
    a.set_action(CloseFileAction::OpenFile);
    a.set_action(CloseFileAction::NewFile);
    assert_eq!(a.action(), Some(CloseFileAction::NewFile));
    a.reset_attempt();
    assert_eq!(a.action(), None);
}

#[test]
fn resolve_blocked_keeps_intent() {
    let mut a = Attempt::default();
    a.set_action(CloseFileAction::OpenFile);
    assert_eq!(a.resolve(false), None);
    assert_eq!(a.action(), Some(CloseFileAction::OpenFile));
}

#[test]
fn resolve_hands_out_and_forgets() {
    let mut a = Attempt::default();
    a.set_action(CloseFileAction::NewFile);
    assert_eq!(a.resolve(true), Some(CloseFileAction::NewFile));
    assert_eq!(a.action(), None);
    assert_eq!(a.resolve(true), None);
}

#[test]
fn resolve_keeps_close_window() {
    let mut a = Attempt::default();
    a.set_action(CloseFileAction::CloseWindow);
    assert_eq!(a.resolve(true), Some(CloseFileAction::CloseWindow));
    assert_eq!(a.action(), Some(CloseFileAction::CloseWindow));
}

#[test]
fn resolve_with_nothing_keeps_override() {
    let mut a = Attempt::default();
    a.allow_once();
    assert_eq!(a.resolve(false), None);
    assert!(a.is_overridden());
    a.set_action(CloseFileAction::OpenFile);
    assert_eq!(a.resolve(false), Some(CloseFileAction::OpenFile));
    assert!(!a.is_overridden());
}

#[test]
fn start_dir_fallback_chain() {
    let d = Some("/home/u/Documents".to_string());
    let k = Some("/home/u/Desktop".to_string());
    let h = Some("/home/u".to_string());
    assert_eq!(pick_start_dir(d.clone(), k.clone(), h.clone()), d);
    assert_eq!(pick_start_dir(None, k.clone(), h.clone()), k);
    assert_eq!(pick_start_dir(None, None, h.clone()), h);
    assert_eq!(pick_start_dir(None, None, None), None);
}
