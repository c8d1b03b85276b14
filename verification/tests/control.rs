//! Downloads under way.

use monk3i::control::{wait_if_paused, Control, Controls, WaitStep, PAUSE_POLL_MILLIS};

const FRESH: Control = Control { paused: false, cancelled: false };
const PAUSED: Control = Control { paused: true, cancelled: false };
const CANCELLED: Control = Control { paused: false, cancelled: true };

fn one(control: Control) -> Controls {
    let mut controls = Controls::new();
    controls.insert("a".into(), control);
    controls
}

#[test]
fn identifiers_are_numbered() {
    let mut controls = Controls::new();
    assert_eq!(controls.new_id(), "download-1");
    assert_eq!(controls.new_id(), "download-2");
    for _ in 2..11 {
        controls.new_id();
    }
    assert_eq!(controls.new_id(), "download-12");
}

#[test]
fn downloads_are_put_and_taken() {
    let mut controls = Controls::new();
    assert_eq!(controls.get_control("a"), None);
    controls.insert("a".into(), FRESH);
    controls.insert("b".into(), PAUSED);
    controls.insert("a".into(), CANCELLED);
    assert_eq!(controls.get_control("a"), Some(CANCELLED));
    assert_eq!(controls.get_control("b"), Some(PAUSED));
    controls.remove_control("a");
    controls.remove_control("nowhere");
    assert_eq!(controls.get_control("a"), None);
    assert_eq!(controls.get_control("b"), Some(PAUSED));
}

#[test]
fn unknown_downloads_are_not_found() {
    let mut controls = one(FRESH);
    controls.remove_control("a");
    for id in ["a", "b"] {
        assert_eq!(controls.pause_download(id).unwrap_err(), "Download not found.");
        assert_eq!(controls.resume_download(id).unwrap_err(), "Download not found.");
        assert_eq!(controls.cancel_download(id).unwrap_err(), "Download not found.");
    }
}

#[test]
fn resuming_undoes_pausing() {
    let mut controls = one(FRESH);
    assert!(controls.pause_download("a").is_ok());
    assert_eq!(controls.get_control("a"), Some(PAUSED));
    assert!(controls.pause_download("a").is_ok());
    assert!(controls.resume_download("a").is_ok());
    assert_eq!(controls.get_control("a"), Some(FRESH));
    assert!(controls.resume_download("a").is_ok());
}

#[test]
fn cancelling_is_final() {
    let mut controls = one(PAUSED);
    assert!(controls.cancel_download("a").is_ok());
    assert_eq!(controls.get_control("a"), Some(CANCELLED));
    assert_eq!(controls.pause_download("a").unwrap_err(), "Download is being cancelled.");
    assert_eq!(controls.resume_download("a").unwrap_err(), "Download has been cancelled.");
    assert!(controls.cancel_download("a").is_ok());
    assert_eq!(controls.get_control("a"), Some(CANCELLED));
}

#[test]
fn requests_touch_one_download() {
    let mut controls = one(FRESH);
    controls.insert("b".into(), PAUSED);
    controls.insert("c".into(), FRESH);
    controls.cancel_download("a").unwrap();
    controls.pause_download("c").unwrap();
    assert_eq!(controls.get_control("b"), Some(PAUSED));
    controls.resume_download("b").unwrap();
    assert_eq!(controls.get_control("a"), Some(CANCELLED));
    assert_eq!(controls.get_control("c"), Some(PAUSED));
}

#[test]
fn paused_downloads_wait() {
    assert_eq!(wait_if_paused(FRESH), WaitStep::Proceed);
    assert_eq!(wait_if_paused(PAUSED), WaitStep::Sleep);
    assert_eq!(wait_if_paused(CANCELLED), WaitStep::Stop);
    assert_eq!(wait_if_paused(Control { paused: true, cancelled: true }), WaitStep::Stop);
    assert_eq!(PAUSE_POLL_MILLIS, 200);
}

#[test]
fn a_granted_pause_is_remembered() {
    let mut controls = one(FRESH);
    assert!(!controls.take_stopped("a"));
    controls.pause_download("a").unwrap();
    controls.resume_download("a").unwrap();
    controls.insert("b".into(), FRESH);
    assert!(!controls.take_stopped("b"));
    assert!(controls.take_stopped("a"));
    assert!(!controls.take_stopped("a"));
    assert_eq!(controls.get_control("a"), Some(FRESH));
}

#[test]
fn only_a_granted_pause_is_remembered() {
    let mut controls = one(CANCELLED);
    assert!(controls.pause_download("a").is_err());
    assert!(controls.cancel_download("a").is_ok());
    assert!(!controls.take_stopped("a"));
    assert!(!controls.take_stopped("nowhere"));
    controls.insert("b".into(), FRESH);
    controls.pause_download("b").unwrap();
    controls.insert("b".into(), FRESH);
    assert!(!controls.take_stopped("b"));
    controls.pause_download("b").unwrap();
    controls.cancel_download("b").unwrap();
    assert!(controls.take_stopped("b"));
    controls.insert("c".into(), FRESH);
    controls.pause_download("c").unwrap();
    controls.remove_control("c");
    assert!(!controls.take_stopped("c"));
}
