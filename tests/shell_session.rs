use remote_client::shell::{
    drain_lines, frame_command, make_sentinel, new_token, one_shot_launch, session_launch,
    CmdResult, OutputLine, PendingCommand, ShellKind, ShellManager, SENTINEL_PREFIX,
};
use remote_client::text::{same_text, text_contains, trim_text};

fn out(t: &str) -> OutputLine {
    OutputLine { is_stderr: false, text: t.to_string() }
}

fn err(t: &str) -> OutputLine {
    OutputLine { is_stderr: true, text: t.to_string() }
}

fn is_uuid_shape(t: &str) -> bool {
    let cs: Vec<char> = t.chars().collect();
    cs.len() == 36
        && cs.iter().enumerate().all(|(i, c)| {
            if i == 8 || i == 13 || i == 18 || i == 23 {
                *c == '-'
            } else {
                c.is_ascii_digit() || ('a'..='f').contains(c)
            }
        })
}

#[test]
fn contains_finds_substrings() {
    assert!(text_contains("abc __RC_END__:x def", "__RC_END__:x"));
    assert!(text_contains("abc", ""));
    assert!(!text_contains("abc", "abcd"));
    assert!(!text_contains("ab c", "bc"));
    assert!(text_contains("héllo wörld", "ö"));
}

#[test]
fn same_text_compares_exactly() {
    assert!(same_text("cmd", "cmd"));
    assert!(!same_text("cmd", "Cmd"));
    assert!(!same_text("cmd", "cmd "));
}

#[test]
fn trim_removes_white_space_at_both_ends() {
    assert_eq!(trim_text("  abc \n"), "abc");
    assert_eq!(trim_text("\u{3000}a b\t"), "a b");
    assert_eq!(trim_text("   "), "");
    assert_eq!(trim_text(""), "");
}

#[test]
fn powershell_framing_echoes_sentinel() {
    let s = frame_command(ShellKind::PowerShell, "dir", "__RC_END__:tok");
    assert_eq!(s, "dir\nWrite-Output \"__RC_END__:tok\"\n");
}

#[test]
fn cmd_framing_chains_echo() {
    let s = frame_command(ShellKind::Cmd, "dir", "__RC_END__:tok");
    assert_eq!(s, "dir & echo __RC_END__:tok\n");
}

#[test]
fn sentinel_has_prefix_and_token() {
    assert_eq!(make_sentinel("abc"), "__RC_END__:abc");
}

#[test]
fn tokens_are_fresh_uuids() {
    let a = new_token();
    let b = new_token();
    assert!(is_uuid_shape(&a));
    assert!(is_uuid_shape(&b));
    assert_ne!(a, b);
}

#[test]
fn begin_frames_with_fresh_sentinel() {
    let (p, text) = PendingCommand::begin(ShellKind::Cmd, "echo hi");
    assert!(p.sentinel.starts_with(SENTINEL_PREFIX));
    assert!(is_uuid_shape(&p.sentinel[SENTINEL_PREFIX.len()..]));
    assert_eq!(text, format!("echo hi & echo {}\n", p.sentinel));
    assert!(!p.finished);
}

#[test]
fn stdout_lines_before_sentinel() {
    let lines = vec![out("a"), out("b"), out("c"), out("__RC_END__:t"), out("later")];
    let (r, used) = drain_lines(&lines, "__RC_END__:t");
    assert_eq!(r.stdout, "a\nb\nc\n");
    assert_eq!(r.stderr, "");
    assert_eq!(used, 4);
}

#[test]
fn stderr_lines_before_sentinel() {
    let lines = vec![err("x"), err("y"), out("__RC_END__:t")];
    let (r, used) = drain_lines(&lines, "__RC_END__:t");
    assert_eq!(r.stdout, "");
    assert_eq!(r.stderr, "x\ny\n");
    assert_eq!(used, 3);
}

#[test]
fn sentinel_found_inside_a_line() {
    let lines = vec![out("one"), out("PS> Write-Output \"__RC_END__:t\"")];
    let (r, used) = drain_lines(&lines, "__RC_END__:t");
    assert_eq!(r.stdout, "one\n");
    assert_eq!(used, 2);
}

#[test]
fn closed_stream_returns_partial_output() {
    let lines = vec![out("one"), err("two")];
    let (r, used) = drain_lines(&lines, "__RC_END__:t");
    assert_eq!(r.stdout, "one\n");
    assert_eq!(r.stderr, "two\n");
    assert_eq!(used, 2);
}

#[test]
fn consecutive_commands_keep_their_own_lines() {
    let lines = vec![
        out("first"),
        err("first-err"),
        out("__RC_END__:one"),
        out("second"),
        out("__RC_END__:two"),
    ];
    let (r1, used) = drain_lines(&lines, "__RC_END__:one");
    assert_eq!(r1.stdout, "first\n");
    assert_eq!(r1.stderr, "first-err\n");
    let rest: Vec<OutputLine> = lines[used..].to_vec();
    let (r2, used2) = drain_lines(&rest, "__RC_END__:two");
    assert_eq!(r2.stdout, "second\n");
    assert_eq!(r2.stderr, "");
    assert_eq!(used2, 2);
}

#[test]
fn pending_command_accepts_lines_one_by_one() {
    let mut p = PendingCommand::new("__RC_END__:s".to_string());
    p.accept(Some(out("a")));
    p.accept(Some(err("e")));
    assert!(!p.finished);
    p.accept(Some(out("__RC_END__:s")));
    assert!(p.finished);
    let r = p.result();
    assert_eq!(r.stdout, "a\n");
    assert_eq!(r.stderr, "e\n");
}

#[test]
fn pending_command_ends_when_stream_closes() {
    let mut p = PendingCommand::new("__RC_END__:s".to_string());
    p.accept(Some(out("a")));
    p.accept(None);
    assert!(p.finished);
    assert_eq!(p.result().stdout, "a\n");
}

#[test]
fn session_launch_arguments() {
    let ps = session_launch(ShellKind::PowerShell);
    assert_eq!(ps.program, "powershell.exe");
    assert_eq!(ps.args, vec!["-NoLogo", "-NoProfile", "-ExecutionPolicy", "Bypass"]);
    let cmd = session_launch(ShellKind::Cmd);
    assert_eq!(cmd.program, "cmd.exe");
    assert_eq!(cmd.args, vec!["/Q"]);
}

#[test]
fn one_shot_launch_arguments() {
    let ps = one_shot_launch(ShellKind::PowerShell, "Get-Date");
    assert_eq!(ps.program, "powershell.exe");
    assert_eq!(
        ps.args,
        vec!["-NoLogo", "-NoProfile", "-ExecutionPolicy", "Bypass", "-Command", "Get-Date"]
    );
    let cmd = one_shot_launch(ShellKind::Cmd, "dir /b");
    assert_eq!(cmd.program, "cmd.exe");
    assert_eq!(cmd.args, vec!["/C", "dir /b"]);
}

#[test]
fn manager_starts_session_once() {
    let mut m = ShellManager::new(ShellKind::Cmd);
    let l = m.ensure_shared().expect("a session to start");
    assert_eq!(l.program, "cmd.exe");
    m.mark_started();
    assert!(m.ensure_shared().is_none());
    assert_eq!(m.exec_new("ver").args, vec!["/C", "ver"]);
}

#[test]
fn one_shot_output_is_decoded_lossily() {
    let r = CmdResult::from_output(b"ok\n", &[0x66, 0xff, 0x67]);
    assert_eq!(r.stdout, "ok\n");
    assert_eq!(r.stderr, "f\u{fffd}g");
    let e = CmdResult::from_output(b"", b"");
    assert_eq!(e.stdout, "");
}

#[test]
fn shared_command_collector_feeds_until_its_sentinel() {
    let m = ShellManager::new(ShellKind::PowerShell);
    let (mut p, text) = m.exec_shared("Get-Date");
    assert!(text.starts_with("Get-Date\nWrite-Output \"__RC_END__:"));
    let lines = vec![out("l1"), out("l2"), out(&p.sentinel.clone()), out("next")];
    let used = p.feed(&lines);
    assert_eq!(used, 3);
    assert!(p.finished);
    let r = p.result();
    assert_eq!(r.stdout, "l1\nl2\n");
    assert_eq!(r.stderr, "");
}
