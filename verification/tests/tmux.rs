use grove::error::GroveError;
use grove::ssh::{CommandOutput, RemoteTmuxSession, SshClient};
use grove::tmux::{SessionReply, SessionTask, TmuxHandle, TmuxOp, TmuxSession};

fn ran(stdout: &str, stderr: &str, code: i32) -> Result<CommandOutput, String> {
    Ok(CommandOutput { stdout: stdout.to_string(), stderr: stderr.to_string(), exit_code: code })
}

#[test]
fn local_handle_hands_the_operation_to_the_caller() {
    let h = TmuxHandle::Local(TmuxSession::new("grove-7"));
    match h.create("/w", "aider") {
        SessionTask::Local { session, op: TmuxOp::Create { working_dir, command } } => {
            assert_eq!(session, "grove-7");
            assert_eq!(working_dir, "/w");
            assert_eq!(command, "aider");
        }
        other => panic!("unexpected {:?}", other),
    }
    assert!(matches!(h.session_exists(), SessionTask::Local { op: TmuxOp::Exists, .. }));
    assert!(matches!(h.kill(), SessionTask::Local { op: TmuxOp::Kill, .. }));
    assert!(matches!(h.attach(), SessionTask::Local { op: TmuxOp::Attach, .. }));
    assert!(matches!(h.capture_pane(9), SessionTask::Local { op: TmuxOp::CapturePane { lines: 9 }, .. }));
    assert!(matches!(h.pane_size(), SessionTask::Local { op: TmuxOp::PaneSize, .. }));
    assert!(matches!(h.pane_current_command(), SessionTask::Local { op: TmuxOp::PaneCurrentCommand, .. }));
    assert!(matches!(h.send_keys("x"), SessionTask::Local { op: TmuxOp::SendKeys { .. }, .. }));
    assert_eq!(h.read_exists(SessionReply::Exists(true)), Some(true));
    assert_eq!(h.read_exists(SessionReply::Ran(ran("", "", 0))), None);
    assert_eq!(h.read_done(SessionReply::Finished(Ok(()))), Some(Ok(())));
    assert_eq!(
        h.read_done(SessionReply::Finished(Err("boom".to_string()))),
        Some(Err(GroveError::Failed { context: None, cause: "boom".to_string() }))
    );
    assert_eq!(h.read_text(SessionReply::Text(Ok("out".to_string()))), Some(Ok("out".to_string())));
    assert_eq!(h.read_command(SessionReply::Command(Some("vim".to_string()))), Some(Some("vim".to_string())));
    assert_eq!(h.read_size(SessionReply::Size(Ok((10, 20)))), Some(Ok((10, 20))));
}

#[test]
fn remote_handle_runs_commands_over_ssh() {
    let c = SshClient::new("h", "u", 22, None);
    let h = TmuxHandle::Remote(RemoteTmuxSession::new(&c, "grove-7"));
    match h.session_exists() {
        SessionTask::Remote { client, command } => {
            assert_eq!(client.host(), "h");
            assert_eq!(command, "tmux has-session -t 'grove-7' 2>/dev/null");
        }
        other => panic!("unexpected {:?}", other),
    }
    match h.attach() {
        SessionTask::Shell { command } => {
            assert_eq!(command, "ssh -t u@h -p 22 'tmux -CC attach-session -t 'grove-7''")
        }
        other => panic!("unexpected {:?}", other),
    }
    match h.send_keys("ls") {
        SessionTask::Remote { command, .. } => {
            assert_eq!(command, "tmux send-keys -t 'grove-7' 'ls' && tmux send-keys -t 'grove-7' Enter")
        }
        other => panic!("unexpected {:?}", other),
    }
    assert_eq!(h.read_exists(SessionReply::Ran(ran("", "", 1))), Some(false));
    assert_eq!(h.read_exists(SessionReply::Exists(true)), None);
    assert_eq!(h.read_done(SessionReply::Exited(Ok(false))), Some(Err(GroveError::AttachFailed)));
    assert_eq!(h.read_text(SessionReply::Ran(ran("pane", "", 0))), Some(Ok("pane".to_string())));
    assert_eq!(h.read_command(SessionReply::Ran(ran("bash\n", "", 0))), Some(Some("bash".to_string())));
    assert_eq!(h.read_size(SessionReply::Ran(ran("1 2", "", 0))), Some(Ok((1, 2))));
}
