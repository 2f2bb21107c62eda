use remote_client::dispatch::{
    command_report, run_command_request, status_of, ConnectionLoop, Directive, LoopAction,
};
use remote_client::fileops::{file_operation, FileOp, FileOpError, FileRequest};
use remote_client::relocation::{
    is_under_dir, processes_to_terminate, quoted_path, Relocation, RelocationAction,
};
use remote_client::screenshot::{screenshot_text, select_display, ScreenshotError};
use remote_client::shell::CmdResult;

fn s(t: &str) -> Option<String> {
    Some(t.to_string())
}

fn parts(v: &[&str]) -> Vec<String> {
    v.iter().map(|x| x.to_string()).collect()
}

#[test]
fn file_op_names() {
    assert_eq!(FileOp::parse("list_dir"), Some(FileOp::ListDir));
    assert_eq!(FileOp::parse("read_file"), Some(FileOp::ReadFile));
    assert_eq!(FileOp::parse("write_file"), Some(FileOp::WriteFile));
    assert_eq!(FileOp::parse("delete_file"), Some(FileOp::DeleteFile));
    assert_eq!(FileOp::parse("delete_dir"), Some(FileOp::DeleteDir));
    assert_eq!(FileOp::parse("format_disk"), None);
}

#[test]
fn unsupported_operation_is_refused() {
    let r = file_operation("rename", s("a.txt"), s("x"));
    assert!(matches!(r, Err(FileOpError::Unsupported)));
    assert_eq!(FileOpError::Unsupported.message(), "unsupported operation");
    assert!(matches!(file_operation("", None, None), Err(FileOpError::Unsupported)));
}

#[test]
fn path_required_for_file_operations() {
    for op in ["read_file", "write_file", "delete_file", "delete_dir"] {
        assert!(matches!(file_operation(op, None, None), Err(FileOpError::PathRequired)));
    }
    assert_eq!(FileOpError::PathRequired.message(), "path required");
}

#[test]
fn list_defaults_to_current_directory() {
    match file_operation("list_dir", None, None) {
        Ok(FileRequest::ListDir { path }) => assert_eq!(path, "."),
        other => panic!("unexpected {:?}", other),
    }
    match file_operation("list_dir", s("/tmp"), None) {
        Ok(FileRequest::ListDir { path }) => assert_eq!(path, "/tmp"),
        other => panic!("unexpected {:?}", other),
    }
}

#[test]
fn write_carries_content() {
    match file_operation("write_file", s("d/f.txt"), s("hello")) {
        Ok(FileRequest::WriteFile { path, content }) => {
            assert_eq!(path, "d/f.txt");
            assert_eq!(content, "hello");
        }
        other => panic!("unexpected {:?}", other),
    }
    match file_operation("write_file", s("f.txt"), None) {
        Ok(FileRequest::WriteFile { content, .. }) => assert_eq!(content, ""),
        other => panic!("unexpected {:?}", other),
    }
}

#[test]
fn read_and_delete_requests() {
    assert!(matches!(file_operation("read_file", s("f"), None), Ok(FileRequest::ReadFile { .. })));
    assert!(matches!(file_operation("delete_file", s("f"), None), Ok(FileRequest::DeleteFile { .. })));
    assert!(matches!(file_operation("delete_dir", s("d"), None), Ok(FileRequest::DeleteDir { .. })));
}

#[test]
fn display_index_fallback() {
    assert_eq!(select_display(3, Some(2)).unwrap(), 2);
    assert_eq!(select_display(3, Some(3)).unwrap(), 0);
    assert_eq!(select_display(3, Some(99)).unwrap(), 0);
    assert_eq!(select_display(3, None).unwrap(), 0);
    assert!(matches!(select_display(0, Some(0)), Err(ScreenshotError::NoScreens)));
    assert_eq!(ScreenshotError::NoScreens.message(), "no screens found");
}

#[test]
fn screenshot_encodes_png_as_base64() {
    let text = screenshot_text(2, 1, vec![255, 0, 0, 255, 0, 255, 0, 255]).unwrap();
    assert!(text.starts_with("iVBORw0KGgo"));
    assert_eq!(text.len() % 4, 0);
}

#[test]
fn screenshot_of_empty_image_fails_to_encode() {
    assert!(matches!(screenshot_text(0, 3, vec![]), Err(ScreenshotError::Encode(_))));
}

#[test]
fn screenshot_rejects_short_buffer() {
    assert!(matches!(screenshot_text(2, 2, vec![0; 15]), Err(ScreenshotError::BadBuffer)));
}

#[test]
fn event_names() {
    assert_eq!(Directive::from_event("connect"), Directive::Connect);
    assert_eq!(Directive::from_event("run_command"), Directive::RunCommand);
    assert_eq!(Directive::from_event("do_file_operation"), Directive::FileOperation);
    assert_eq!(Directive::from_event("screenshot"), Directive::Screenshot);
    assert_eq!(Directive::from_event("restart"), Directive::Restart);
    assert_eq!(Directive::from_event("error"), Directive::Error);
    assert_eq!(Directive::from_event("shutdown"), Directive::Unrecognized);
}

#[test]
fn empty_command_is_ignored() {
    assert!(run_command_request(s(""), Some(true)).is_none());
    assert!(run_command_request(None, None).is_none());
}

#[test]
fn run_command_defaults_to_shared() {
    let r = run_command_request(s("dir"), None).unwrap();
    assert_eq!(r.command, "dir");
    assert!(r.use_shared);
    assert!(!run_command_request(s("dir"), Some(false)).unwrap().use_shared);
}

#[test]
fn command_reports() {
    let ok = command_report(
        "dir".to_string(),
        Ok(CmdResult { stdout: "a\n".to_string(), stderr: "w\n".to_string() }),
    );
    assert_eq!((ok.command.as_str(), ok.output.as_str(), ok.error.as_str()), ("dir", "a\n", "w\n"));
    let bad = command_report("dir".to_string(), Err("spawn failed".to_string()));
    assert_eq!((bad.output.as_str(), bad.error.as_str()), ("", "spawn failed"));
}

#[test]
fn statuses() {
    let ok = status_of(None);
    assert!(ok.success);
    assert_eq!(ok.error, "");
    let bad = status_of(s("boom"));
    assert!(!bad.success);
    assert_eq!(bad.error, "boom");
}

#[test]
fn failed_connects_retry_forever() {
    let (mut l, first) = ConnectionLoop::new();
    assert_eq!(first, LoopAction::Connect);
    for n in 1..=1000u64 {
        assert_eq!(l.on_connect_result(false), LoopAction::Wait { secs: 5 });
        assert_eq!(l.failures, n);
        assert_eq!(l.on_wait_over(), LoopAction::Connect);
    }
    assert_eq!(l.on_connect_result(true), LoopAction::Idle { secs: 60 });
    assert_eq!(l.on_wait_over(), LoopAction::Idle { secs: 60 });
}

#[test]
fn under_dir_by_components() {
    let dir = parts(&["C:", "Users", "u", "AppData", "RemoteController"]);
    assert!(is_under_dir(&parts(&["C:", "Users", "u", "AppData", "RemoteController", "a.exe"]), &dir));
    assert!(!is_under_dir(&parts(&["C:", "Users", "u", "AppData", "RemoteController2", "a.exe"]), &dir));
    assert!(!is_under_dir(&parts(&["C:", "Users"]), &dir));
}

#[test]
fn relocation_skipped_inside_data_dir() {
    let (r, a) = Relocation::ensure_self_in_appdata(true, None);
    assert_eq!(a, RelocationAction::Proceed);
    let mut r = r;
    assert_eq!(r.step(true), RelocationAction::Proceed);
    let (_, b) = Relocation::ensure_self_in_appdata(false, Some("1"));
    assert_eq!(b, RelocationAction::Proceed);
    let (_, c) = Relocation::ensure_self_in_appdata(false, Some("0"));
    assert_eq!(c, RelocationAction::Copy);
}

#[test]
fn relocation_evicts_then_fails() {
    let (mut r, a) = Relocation::ensure_self_in_appdata(false, None);
    assert_eq!(a, RelocationAction::Copy);
    assert_eq!(r.step(false), RelocationAction::EvictAndCopy { wait_ms: 300 });
    assert_eq!(r.step(false), RelocationAction::Fail);
}

#[test]
fn relocation_full_sequence() {
    let (mut r, _) = Relocation::ensure_self_in_appdata(false, None);
    assert_eq!(r.step(false), RelocationAction::EvictAndCopy { wait_ms: 300 });
    assert_eq!(r.step(true), RelocationAction::Launch);
    assert_eq!(r.step(true), RelocationAction::Register);
    assert_eq!(r.step(false), RelocationAction::Exit);
}

#[test]
fn autostart_path_is_quoted() {
    assert_eq!(quoted_path("C:\\Program Files\\a.exe"), "\"C:\\Program Files\\a.exe\"");
}

#[test]
fn running_copies_matched_ignoring_case() {
    let exes = vec![s("C:\\APP\\Agent.EXE"), None, s("C:\\app\\other.exe"), s("c:\\app\\agent.exe")];
    assert_eq!(processes_to_terminate("C:\\App\\agent.exe", &exes), vec![true, false, false, true]);
}
