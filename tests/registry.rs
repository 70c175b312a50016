use mac_platform::dialog::{
    open_panel_result, save_panel_result, url_to_path, urls_to_paths, DialogCompletion,
};
use mac_platform::platform::{MacForegroundPlatform, MacForegroundPlatformState};

type Platform = MacForegroundPlatform<u8, u8, u8, u8, u8, u32>;

#[test]
fn slots_start_empty() {
    let s: MacForegroundPlatformState<u8, u8, u8, u8, u8, u32> = Default::default();
    assert!(s.become_active.is_none() && s.resign_active.is_none() && s.event.is_none());
    assert!(s.menu_command.is_none() && s.open_files.is_none() && s.finish_launching.is_none());
    assert!(s.menu_actions.is_empty());
}

#[test]
fn install_replaces_previous_handler() {
    let mut p: Platform = MacForegroundPlatform::new();
    p.on_become_active(1);
    p.on_become_active(2);
    p.on_resign_active(3);
    p.on_event(4);
    p.on_open_files(5);
    assert_eq!(p.state.become_active, Some(2));
    assert_eq!(p.state.resign_active, Some(3));
    assert_eq!(p.state.event, Some(4));
    assert_eq!(p.state.open_files, Some(5));
}

#[test]
fn finish_launching_fires_once() {
    let mut p: Platform = MacForegroundPlatform::new();
    p.on_finish_launching(Some(9));
    assert_eq!(p.take_finish_launching(), Some(9));
    assert_eq!(p.take_finish_launching(), None);
    p.on_finish_launching(None);
    assert_eq!(p.take_finish_launching(), None);
}

#[test]
fn menu_command_restored_after_invocation() {
    let mut p: Platform = MacForegroundPlatform::new();
    p.on_menu_command(1);
    let h = p.take_menu_command();
    assert_eq!(h, Some(1));
    assert_eq!(p.state.menu_command, None);
    p.restore_menu_command(1);
    assert_eq!(p.state.menu_command, Some(1));
}

#[test]
fn reentrant_install_keeps_new_handler() {
    let mut p: Platform = MacForegroundPlatform::new();
    p.on_menu_command(1);
    let h = p.take_menu_command().unwrap();
    p.on_menu_command(2);
    p.restore_menu_command(h);
    assert_eq!(p.state.menu_command, Some(2));
}

#[test]
fn event_fall_through() {
    assert!(Platform::falls_through(None));
    assert!(Platform::falls_through(Some(false)));
    assert!(!Platform::falls_through(Some(true)));
}

#[test]
fn open_paths_skip_undecodable() {
    let raw = vec![b"/tmp/a".to_vec(), vec![0xff, 0x2f], b"/tmp/b".to_vec()];
    assert_eq!(Platform::decode_open_paths(&raw), vec!["/tmp/a".to_string(), "/tmp/b".to_string()]);
    assert!(Platform::decode_open_paths(&Vec::new()).is_empty());
}

#[test]
fn file_urls_become_paths() {
    assert_eq!(url_to_path("file:///Users/me/a.txt"), Some("/Users/me/a.txt".to_string()));
    assert_eq!(url_to_path("https://example.com/a"), None);
    assert_eq!(url_to_path("file:/"), None);
    let urls = vec!["file:///a".to_string(), "http://b".to_string(), "file:///c d".to_string()];
    assert_eq!(urls_to_paths(&urls), vec!["/a".to_string(), "/c d".to_string()]);
}

#[test]
fn dismissed_dialogs_report_nothing() {
    let urls = vec!["file:///a".to_string()];
    assert_eq!(open_panel_result(false, &urls), None);
    assert_eq!(open_panel_result(true, &urls), Some(vec!["/a".to_string()]));
    assert_eq!(open_panel_result(true, &Vec::new()), Some(Vec::new()));
    assert_eq!(save_panel_result(false, "file:///x"), None);
    assert_eq!(save_panel_result(true, "file:///x"), Some("/x".to_string()));
    assert_eq!(save_panel_result(true, "mailto:x"), None);
}

#[test]
fn dialog_completion_is_handed_out_once() {
    let mut c = DialogCompletion::new(5u8);
    assert_eq!(c.complete(), Some(5));
    assert_eq!(c.complete(), None);
}
