use grove::error::{FailedStep, GroveError};
use grove::ssh::remote::{
    is_tmux_available_on_remote, remote_list_sessions, remote_list_sessions_command,
    tmux_version_command,
};
use grove::ssh::{CommandOutput, RemoteTmuxSession, SshClient};

fn ran(stdout: &str, stderr: &str, code: i32) -> Result<CommandOutput, String> {
    Ok(CommandOutput { stdout: stdout.to_string(), stderr: stderr.to_string(), exit_code: code })
}

fn client() -> SshClient {
    SshClient::new("build.example", "dev", 2200, None)
}

#[test]
fn session_knows_its_name_and_no_pane() {
    let c = client();
    let s = RemoteTmuxSession::new(&c, "grove-abc");
    assert_eq!(s.session_name(), "grove-abc");
    assert_eq!(s.pane_id(), None);
    assert_eq!(s.client().host(), "build.example");
}

#[test]
fn escape_shell_arg_quotes() {
    let c = client();
    let s = RemoteTmuxSession::new(&c, "x");
    assert_eq!(s.escape_shell_arg("don't"), "'don'\\''t'");
}

#[test]
fn create_commands() {
    let c = client();
    let s = RemoteTmuxSession::new(&c, "grove-1");
    assert_eq!(
        s.create_command("/srv/w t", "aider --x 'y'"),
        "tmux new-session -d -s 'grove-1' -c '/srv/w t' && tmux send-keys -t 'grove-1' 'aider --x '\\''y'\\''' Enter"
    );
    assert_eq!(
        s.create_with_dimensions_command("/w", "c", 200, 50),
        "tmux new-session -d -s 'grove-1' -x 200 -y 50 -c '/w' && tmux send-keys -t 'grove-1' 'c' Enter"
    );
    assert_eq!(s.create(ran("", "", 0)), Ok(()));
    assert_eq!(
        s.create_with_dimensions(ran("", "duplicate session", 1)),
        Err(GroveError::CommandFailed { status: 1, output: "".to_string() })
    );
}

#[test]
fn other_commands() {
    let c = client();
    let s = RemoteTmuxSession::new(&c, "g");
    assert_eq!(s.exists_command(), "tmux has-session -t 'g' 2>/dev/null");
    assert_eq!(s.capture_pane_command(50), "tmux capture-pane -t 'g' -p -e -J -S -50");
    assert_eq!(s.send_keys_raw_command("C-c"), "tmux send-keys -t 'g' -l 'C-c'");
    assert_eq!(s.interrupt_command(), "tmux send-keys -t 'g' C-c");
    assert_eq!(s.send_keys_command("ls -la"), "tmux send-keys -t 'g' 'ls -la' && tmux send-keys -t 'g' Enter");
    assert_eq!(s.send_text_command("hi"), "tmux set-buffer -t 'g' 'hi' && tmux paste-buffer -t 'g'");
    assert_eq!(s.kill_command(), "tmux kill-session -t 'g' 2>/dev/null || true");
    assert_eq!(s.pane_current_command_command(), "tmux display-message -t 'g' -p '#{pane_current_command}'");
    assert_eq!(s.pane_size_command(), "tmux display-message -t 'g' -p '#{pane_width} #{pane_height}'");
    assert_eq!(s.is_attached_command(), "tmux list-clients -t 'g' 2>/dev/null | grep -q .");
    assert_eq!(s.attach_command(), "tmux -CC attach-session -t 'g'");
    assert_eq!(s.local_attach_command(), "ssh -t dev@build.example -p 2200 'tmux -CC attach-session -t 'g''");
}

#[test]
fn outcomes_of_unit_commands() {
    let c = client();
    let s = RemoteTmuxSession::new(&c, "g");
    assert_eq!(s.send_keys(ran("", "", 0)), Ok(()));
    assert_eq!(s.send_keys_raw(ran("", "", 0)), Ok(()));
    assert_eq!(s.send_text(Err("eof".to_string())), Err(GroveError::Ssh("eof".to_string())));
    assert_eq!(s.kill(ran("", "", 0)), Ok(()));
    assert!(s.session_exists(ran("", "", 0)));
    assert!(!s.session_exists(ran("", "", 1)));
    assert!(!s.session_exists(Err("refused".to_string())));
    assert!(s.is_attached(ran("", "", 0)));
    assert!(!s.is_attached(ran("", "", 1)));
}

#[test]
fn capture_pane_tolerates_no_current_window() {
    let c = client();
    let s = RemoteTmuxSession::new(&c, "g");
    assert_eq!(s.capture_pane(ran("screen", "", 0)), Ok("screen".to_string()));
    assert_eq!(s.capture_pane(ran("screen", "", 1)), Ok("screen".to_string()));
    assert_eq!(s.capture_pane(ran("", "error: no current window", 1)), Ok("".to_string()));
    let e = s.capture_pane(ran("", "can't find session", 1)).unwrap_err();
    assert_eq!(e, GroveError::CaptureFailed { stderr: "can't find session".to_string() });
    assert_eq!(e.message(), "Failed to capture pane: can't find session");
}

#[test]
fn pane_current_command_is_trimmed_output() {
    let c = client();
    let s = RemoteTmuxSession::new(&c, "g");
    assert_eq!(s.pane_current_command(ran(" zsh \n", "", 0)), Some("zsh".to_string()));
    assert_eq!(s.pane_current_command(ran(" \n", "", 0)), None);
    assert_eq!(s.pane_current_command(ran("zsh", "", 1)), None);
}

#[test]
fn pane_size_reads_two_numbers_with_fallbacks() {
    let c = client();
    let s = RemoteTmuxSession::new(&c, "g");
    assert_eq!(s.pane_size(ran("120 40\n", "", 0)), Ok((120, 40)));
    assert_eq!(s.pane_size(ran("abc 40\n", "", 0)), Ok((80, 40)));
    assert_eq!(s.pane_size(ran("120 99999", "", 0)), Ok((120, 24)));
    assert_eq!(s.pane_size(ran("120", "", 0)), Ok((80, 24)));
    assert_eq!(s.pane_size(ran("", "", 0)), Ok((80, 24)));
    assert!(s.pane_size(ran("120 40", "", 1)).is_err());
}

#[test]
fn attach_verdict() {
    let c = client();
    let s = RemoteTmuxSession::new(&c, "g");
    assert_eq!(s.attach(Ok(true)), Ok(()));
    assert_eq!(s.attach(Ok(false)), Err(GroveError::AttachFailed));
    let e = s.attach(Err("no sh".to_string())).unwrap_err();
    assert_eq!(e, GroveError::Failed { context: Some(FailedStep::RunAttach), cause: "no sh".to_string() });
    assert_eq!(e.message(), "Failed to run tmux attach");
}

#[test]
fn remote_sessions_are_the_grove_lines() {
    let c = client();
    assert_eq!(remote_list_sessions_command(), "tmux list-sessions -F '#{session_name}' 2>/dev/null || true");
    assert_eq!(
        remote_list_sessions(&c, ran("grove-1\nmain\ngrove-2\n", "", 0)),
        Ok(vec!["grove-1".to_string(), "grove-2".to_string()])
    );
    assert_eq!(remote_list_sessions(&c, ran("", "", 0)), Ok(vec![]));
}

#[test]
fn tmux_on_remote_needs_status_zero_and_output() {
    let c = client();
    assert_eq!(tmux_version_command(), "tmux -V 2>/dev/null || echo 'not found'");
    assert_eq!(is_tmux_available_on_remote(&c, ran("tmux 3.4\n", "", 0)), Ok(true));
    assert_eq!(is_tmux_available_on_remote(&c, ran("tmux 3.4\n", "", 1)), Ok(false));
    assert_eq!(is_tmux_available_on_remote(&c, ran("  ", "", 0)), Ok(false));
}
