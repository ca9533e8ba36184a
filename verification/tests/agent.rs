use grove::agent::manager::{
    Action, AgentManager, AttachStage, CaptureStage, CreateRemoteStage, CreateStage, DeleteStage,
    Reply, RestartStage, SendStage, Step,
};
use grove::agent::{hyphenated_id, session_name, simple_id, Agent};
use grove::config::{RemoteHost, SshConfig};
use grove::error::{FailedStep, GroveError};
use grove::ssh::CommandOutput;
use grove::tmux::{SessionReply, SessionTask, TmuxOp};

const ID: u128 = 0xa1a2a3a4_b1b2_c1c2_d1d2_d3d4d5d6d7d8;

fn ran(stdout: &str, stderr: &str, code: i32) -> Reply {
    Reply::Session(SessionReply::Ran(Ok(CommandOutput {
        stdout: stdout.to_string(),
        stderr: stderr.to_string(),
        exit_code: code,
    })))
}

fn config() -> Reply {
    Reply::Config(Ok(SshConfig {
        hosts: vec![RemoteHost {
            name: "box".to_string(),
            host: "box.example".to_string(),
            user: "dev".to_string(),
            port: 22,
            identity_file: None,
            worktree_dir: "/srv/work".to_string(),
        }],
    }))
}

fn local_agent() -> Agent {
    Agent::new(ID, "fix-bug", "fix/bug", "/tmp/wt/fix-bug")
}

fn remote_agent() -> Agent {
    let mut a = local_agent();
    a.remote_host = Some("box".to_string());
    a.remote_worktree_path = Some("/srv/work/x".to_string());
    a
}

fn manager() -> AgentManager {
    AgentManager::new("/repo", "/tmp/wt")
}

#[test]
fn uuid_forms() {
    assert_eq!(simple_id(ID), "a1a2a3a4b1b2c1c2d1d2d3d4d5d6d7d8");
    assert_eq!(hyphenated_id(ID), "a1a2a3a4-b1b2-c1c2-d1d2-d3d4d5d6d7d8");
    assert_eq!(simple_id(1), "00000000000000000000000000000001");
    assert_eq!(session_name(ID), "grove-a1a2a3a4b1b2c1c2d1d2d3d4d5d6d7d8");
    let u = uuid::Uuid::from_u128(ID);
    assert_eq!(hyphenated_id(ID), u.to_string());
    assert_eq!(simple_id(ID), u.as_simple().to_string());
}

#[test]
fn new_agent_is_local_and_named_after_its_uuid() {
    let a = local_agent();
    assert_eq!(a.tmux_session, "grove-a1a2a3a4b1b2c1c2d1d2d3d4d5d6d7d8");
    assert!(!a.is_remote());
    assert!(remote_agent().is_remote());
}

#[test]
fn send_input_to_a_local_session() {
    let m = manager();
    let a = local_agent();
    let (stage, action) = match m.send_input(&a, "hello") {
        Step::Next(s, act) => (s, act),
        Step::Done(r) => panic!("done early: {:?}", r),
    };
    assert!(matches!(action, Action::Session(SessionTask::Local { op: TmuxOp::Exists, .. })));
    // A reply that does not answer leaves the job where it was.
    let stage = match m.resume_send_input(&a, "hello", stage, Reply::PathExists(true)) {
        Step::Next(s @ SendStage::Check { .. }, Action::Session(SessionTask::Local { op: TmuxOp::Exists, .. })) => s,
        other => panic!("unexpected {:?}", other),
    };
    let stage = match m.resume_send_input(&a, "hello", stage, Reply::Session(SessionReply::Exists(true))) {
        Step::Next(s, Action::Session(SessionTask::Local { op: TmuxOp::SendKeys { keys }, .. })) => {
            assert_eq!(keys, "hello");
            s
        }
        other => panic!("unexpected {:?}", other),
    };
    assert!(matches!(
        m.resume_send_input(&a, "hello", stage, Reply::Session(SessionReply::Finished(Ok(())))),
        Step::Done(Ok(()))
    ));
}

#[test]
fn send_input_to_a_missing_session_fails() {
    let m = manager();
    let a = local_agent();
    let stage = match m.send_input(&a, "x") {
        Step::Next(s, _) => s,
        Step::Done(_) => panic!(),
    };
    match m.resume_send_input(&a, "x", stage, Reply::Session(SessionReply::Exists(false))) {
        Step::Done(Err(e)) => assert_eq!(e.message(), "Tmux session does not exist"),
        other => panic!("unexpected {:?}", other),
    }
}

#[test]
fn send_input_to_a_remote_session() {
    let m = manager();
    let a = remote_agent();
    let stage = match m.send_input(&a, "go") {
        Step::Next(s @ SendStage::Config { .. }, Action::LoadConfig) => s,
        other => panic!("unexpected {:?}", other),
    };
    let stage = match m.resume_send_input(&a, "go", stage, config()) {
        Step::Next(s, Action::Session(SessionTask::Remote { client, command })) => {
            assert_eq!(client.host(), "box.example");
            assert_eq!(command, format!("tmux has-session -t '{}' 2>/dev/null", a.tmux_session));
            s
        }
        other => panic!("unexpected {:?}", other),
    };
    match m.resume_send_input(&a, "go", stage, ran("", "", 1)) {
        Step::Done(Err(e)) => {
            assert_eq!(e, GroveError::RemoteSessionMissing);
            assert_eq!(e.message(), "Remote tmux session does not exist");
        }
        other => panic!("unexpected {:?}", other),
    }
}

#[test]
fn unknown_host_and_unloadable_config() {
    let m = manager();
    let mut a = remote_agent();
    a.remote_host = Some("nowhere".to_string());
    let stage = match m.send_input(&a, "go") {
        Step::Next(s, _) => s,
        Step::Done(_) => panic!(),
    };
    match m.resume_send_input(&a, "go", stage, config()) {
        Step::Done(Err(e)) => assert_eq!(e.message(), "Unknown remote host: nowhere"),
        other => panic!("unexpected {:?}", other),
    }
    let alive = match m.is_session_alive(&a) {
        Step::Next(s, _) => s,
        Step::Done(_) => panic!(),
    };
    assert!(matches!(
        m.resume_is_session_alive(&a, alive, Reply::Config(Err("no file".to_string()))),
        Step::Done(Ok(false))
    ));
    let b = remote_agent();
    let alive = match m.is_session_alive(&b) {
        Step::Next(s, _) => s,
        Step::Done(_) => panic!(),
    };
    let alive = match m.resume_is_session_alive(&b, alive, config()) {
        Step::Next(s, _) => s,
        other => panic!("unexpected {:?}", other),
    };
    assert!(matches!(m.resume_is_session_alive(&b, alive, ran("", "", 0)), Step::Done(Ok(true))));
}

#[test]
fn capture_of_a_missing_session_is_empty() {
    let m = manager();
    let a = local_agent();
    let stage = match m.capture_output(&a, 50) {
        Step::Next(s, _) => s,
        Step::Done(_) => panic!(),
    };
    match m.resume_capture_output(&a, 50, stage, Reply::Session(SessionReply::Exists(false))) {
        Step::Done(Ok(s)) => assert_eq!(s, ""),
        other => panic!("unexpected {:?}", other),
    }
    let stage = match m.detect_status(&a) {
        Step::Next(s, _) => s,
        Step::Done(_) => panic!(),
    };
    let stage = match m.resume_capture_output(&a, 50, stage, Reply::Session(SessionReply::Exists(true))) {
        Step::Next(s @ CaptureStage::Capture { .. }, Action::Session(SessionTask::Local { op: TmuxOp::CapturePane { lines: 50 }, .. })) => s,
        other => panic!("unexpected {:?}", other),
    };
    match m.resume_capture_output(&a, 50, stage, Reply::Session(SessionReply::Text(Ok("$ ".to_string())))) {
        Step::Done(Ok(s)) => assert_eq!(s, "$ "),
        other => panic!("unexpected {:?}", other),
    }
}

#[test]
fn attach_remakes_a_missing_local_session() {
    let m = manager();
    let a = local_agent();
    let stage = match m.attach_to_agent(&a, "aider") {
        Step::Next(s, _) => s,
        Step::Done(_) => panic!(),
    };
    let stage = match m.resume_attach_to_agent(&a, "aider", stage, Reply::Session(SessionReply::Exists(false))) {
        Step::Next(s @ AttachStage::Create { .. }, Action::Session(SessionTask::Local { op: TmuxOp::Create { working_dir, command }, .. })) => {
            assert_eq!(working_dir, "/tmp/wt/fix-bug");
            assert_eq!(command, "aider");
            s
        }
        other => panic!("unexpected {:?}", other),
    };
    match m.resume_attach_to_agent(&a, "aider", stage, Reply::Session(SessionReply::Finished(Err("no tmux".to_string())))) {
        Step::Done(Err(e)) => {
            assert_eq!(e, GroveError::Failed { context: Some(FailedStep::CreateSession), cause: "no tmux".to_string() });
            assert_eq!(e.message(), "Failed to create tmux session");
        }
        other => panic!("unexpected {:?}", other),
    }
}

#[test]
fn attach_to_a_remote_session_runs_ssh_locally() {
    let m = manager();
    let a = remote_agent();
    let stage = match m.attach_to_agent(&a, "aider") {
        Step::Next(s, _) => s,
        Step::Done(_) => panic!(),
    };
    let stage = match m.resume_attach_to_agent(&a, "aider", stage, config()) {
        Step::Next(s, _) => s,
        other => panic!("unexpected {:?}", other),
    };
    let stage = match m.resume_attach_to_agent(&a, "aider", stage, ran("", "", 0)) {
        Step::Next(s @ AttachStage::Attach { .. }, Action::Session(SessionTask::Shell { command })) => {
            assert_eq!(command, format!("ssh -t dev@box.example -p 22 'tmux -CC attach-session -t '{}''", a.tmux_session));
            s
        }
        other => panic!("unexpected {:?}", other),
    };
    assert!(matches!(
        m.resume_attach_to_agent(&a, "aider", stage, Reply::Session(SessionReply::Exited(Ok(true)))),
        Step::Done(Ok(()))
    ));
}

#[test]
fn restart_interrupts_waits_and_retypes() {
    let m = manager();
    let a = local_agent();
    let stage = match m.restart_agent(&a, "aider") {
        Step::Next(s, _) => s,
        Step::Done(_) => panic!(),
    };
    let stage = match m.resume_restart_agent(&a, "aider", stage, Reply::Session(SessionReply::Exists(true))) {
        Step::Next(s @ RestartStage::Interrupt { .. }, Action::Process { program, args }) => {
            assert_eq!(program, "tmux");
            assert_eq!(args, vec!["send-keys".to_string(), "-t".to_string(), a.tmux_session.clone(), "C-c".to_string()]);
            s
        }
        other => panic!("unexpected {:?}", other),
    };
    let stage = match m.resume_restart_agent(&a, "aider", stage, Reply::Finished(Err("ignored".to_string()))) {
        Step::Next(s, Action::Sleep { millis: 100 }) => s,
        other => panic!("unexpected {:?}", other),
    };
    let stage = match m.resume_restart_agent(&a, "aider", stage, Reply::Finished(Ok(()))) {
        Step::Next(s, Action::Session(SessionTask::Local { op: TmuxOp::SendKeys { keys }, .. })) => {
            assert_eq!(keys, "aider");
            s
        }
        other => panic!("unexpected {:?}", other),
    };
    assert!(matches!(
        m.resume_restart_agent(&a, "aider", stage, Reply::Session(SessionReply::Finished(Ok(())))),
        Step::Done(Ok(()))
    ));
}

#[test]
fn restart_of_a_remote_agent_needs_its_worktree() {
    let m = manager();
    let mut a = remote_agent();
    a.remote_worktree_path = None;
    let stage = match m.restart_agent(&a, "c") {
        Step::Next(s, _) => s,
        Step::Done(_) => panic!(),
    };
    match m.resume_restart_agent(&a, "c", stage, config()) {
        Step::Done(Err(e)) => assert_eq!(e.message(), "Remote agent missing worktree path"),
        other => panic!("unexpected {:?}", other),
    }
}

#[test]
fn delete_local_agent_removes_existing_worktree() {
    let m = manager();
    let a = local_agent();
    let stage = match m.delete_agent(&a) {
        Step::Next(s, _) => s,
        Step::Done(_) => panic!(),
    };
    let stage = match m.resume_delete_agent(&a, stage, Reply::Session(SessionReply::Exists(true))) {
        Step::Next(s @ DeleteStage::Kill { .. }, _) => s,
        other => panic!("unexpected {:?}", other),
    };
    let stage = match m.resume_delete_agent(&a, stage, Reply::Session(SessionReply::Finished(Ok(())))) {
        Step::Next(s, Action::PathExists { path }) => {
            assert_eq!(path, "/tmp/wt/fix-bug");
            s
        }
        other => panic!("unexpected {:?}", other),
    };
    let stage = match m.resume_delete_agent(&a, stage, Reply::PathExists(true)) {
        Step::Next(s, Action::RemoveWorktree { repo_path, worktree_base, path }) => {
            assert_eq!((repo_path.as_str(), worktree_base.as_str(), path.as_str()), ("/repo", "/tmp/wt", "/tmp/wt/fix-bug"));
            s
        }
        other => panic!("unexpected {:?}", other),
    };
    match m.resume_delete_agent(&a, stage, Reply::Finished(Err("locked".to_string()))) {
        Step::Done(Err(e)) => assert_eq!(e.message(), "Failed to remove worktree"),
        other => panic!("unexpected {:?}", other),
    }
}

#[test]
fn delete_local_agent_without_worktree_is_done() {
    let m = manager();
    let a = local_agent();
    let stage = match m.delete_agent(&a) {
        Step::Next(s, _) => s,
        Step::Done(_) => panic!(),
    };
    let stage = match m.resume_delete_agent(&a, stage, Reply::Session(SessionReply::Exists(false))) {
        Step::Next(s @ DeleteStage::CheckPath { .. }, _) => s,
        other => panic!("unexpected {:?}", other),
    };
    assert!(matches!(m.resume_delete_agent(&a, stage, Reply::PathExists(false)), Step::Done(Ok(()))));
}

#[test]
fn delete_remote_agent_wipes_the_remote_worktree() {
    let m = manager();
    let a = remote_agent();
    let stage = match m.delete_agent(&a) {
        Step::Next(s, Action::LoadConfig) => s,
        other => panic!("unexpected {:?}", other),
    };
    let stage = match m.resume_delete_agent(&a, stage, config()) {
        Step::Next(s, _) => s,
        other => panic!("unexpected {:?}", other),
    };
    let stage = match m.resume_delete_agent(&a, stage, ran("", "", 1)) {
        Step::Next(s, Action::Session(SessionTask::Remote { command, .. })) => {
            assert_eq!(command, "rm -rf /srv/work/x");
            s
        }
        other => panic!("unexpected {:?}", other),
    };
    assert!(matches!(m.resume_delete_agent(&a, stage, ran("", "", 0)), Step::Done(Ok(()))));
    let mut b = remote_agent();
    b.remote_worktree_path = None;
    assert!(matches!(m.delete_agent(&b), Step::Done(Err(GroveError::MissingWorktreePath))));
}

#[test]
fn create_agent_makes_worktree_links_and_session() {
    let m = manager();
    let links = vec![".env".to_string()];
    let (stage, id) = match m.create_agent("a1", "feat", "aider", &links) {
        Step::Next(s @ CreateStage::Worktree { id }, Action::CreateWorktree { repo_path, worktree_base, branch }) => {
            assert_eq!((repo_path.as_str(), worktree_base.as_str(), branch.as_str()), ("/repo", "/tmp/wt", "feat"));
            (s, id)
        }
        other => panic!("unexpected {:?}", other),
    };
    assert_eq!((id >> 76) & 0xf, 4);
    let stage = match m.resume_create_agent("a1", "feat", "aider", &links, stage, Reply::Path(Ok("/tmp/wt/feat".to_string()))) {
        Step::Next(s, Action::CreateSymlinks { worktree_path, links: l, .. }) => {
            assert_eq!(worktree_path, "/tmp/wt/feat");
            assert_eq!(l, vec![".env".to_string()]);
            s
        }
        other => panic!("unexpected {:?}", other),
    };
    let stage = match m.resume_create_agent("a1", "feat", "aider", &links, stage, Reply::Finished(Ok(()))) {
        Step::Next(s, Action::Session(SessionTask::Local { session, op: TmuxOp::Create { working_dir, command } })) => {
            assert_eq!(session, session_name(id));
            assert_eq!(working_dir, "/tmp/wt/feat");
            assert_eq!(command, "aider");
            s
        }
        other => panic!("unexpected {:?}", other),
    };
    match m.resume_create_agent("a1", "feat", "aider", &links, stage, Reply::Session(SessionReply::Finished(Ok(())))) {
        Step::Done(Ok(agent)) => {
            assert_eq!(agent.id, id);
            assert_eq!(agent.name, "a1");
            assert_eq!(agent.branch, "feat");
            assert_eq!(agent.worktree_path, "/tmp/wt/feat");
            assert!(!agent.is_remote());
        }
        other => panic!("unexpected {:?}", other),
    }
}

#[test]
fn create_agent_reports_the_failed_step() {
    let m = manager();
    let stage = match m.create_agent("a", "b", "c", &[]) {
        Step::Next(s, _) => s,
        Step::Done(_) => panic!(),
    };
    match m.resume_create_agent("a", "b", "c", &[], stage, Reply::Path(Err("exists".to_string()))) {
        Step::Done(Err(e)) => {
            assert_eq!(e, GroveError::Failed { context: Some(FailedStep::CreateWorktree), cause: "exists".to_string() });
            assert_eq!(e.message(), "Failed to create worktree");
        }
        other => panic!("unexpected {:?}", other),
    }
}

#[test]
fn create_remote_agent_prepares_worktree_then_session() {
    let m = manager();
    let host = RemoteHost {
        name: "box".to_string(),
        host: "box.example".to_string(),
        user: "dev".to_string(),
        port: 22,
        identity_file: None,
        worktree_dir: "/srv/work".to_string(),
    };
    let (stage, path) = match m.create_remote_agent("r", "feat", "aider", &host) {
        Step::Next(s @ CreateRemoteStage::Prepare { .. }, Action::Session(SessionTask::Remote { command, .. })) => {
            let path = match &s {
                CreateRemoteStage::Prepare { path, .. } => path.clone(),
                _ => unreachable!(),
            };
            assert!(path.starts_with("/srv/work/"));
            assert_eq!(path.len(), "/srv/work/".len() + 36);
            assert_eq!(
                command,
                format!("mkdir -p {p} && cd {p} && git worktree add feat feat 2>/dev/null || git clone --bare . {p} && cd {p} && git checkout -b feat", p = path)
            );
            (s, path)
        }
        other => panic!("unexpected {:?}", other),
    };
    let stage = match m.resume_create_remote_agent("r", "feat", "aider", &host, stage, ran("", "", 0)) {
        Step::Next(s, Action::Session(SessionTask::Remote { command, .. })) => {
            assert!(command.starts_with("tmux new-session -d -s 'grove-"));
            assert!(command.contains(&format!("-c '{}'", path)));
            s
        }
        other => panic!("unexpected {:?}", other),
    };
    match m.resume_create_remote_agent("r", "feat", "aider", &host, stage, ran("", "", 0)) {
        Step::Done(Ok(agent)) => {
            assert_eq!(agent.remote_host.as_deref(), Some("box"));
            assert_eq!(agent.remote_worktree_path.as_deref(), Some(path.as_str()));
            assert!(agent.is_remote());
        }
        other => panic!("unexpected {:?}", other),
    }
}

#[test]
fn orphaned_sessions_are_those_of_no_known_agent() {
    let m = manager();
    let known = session_name(ID);
    let sessions = vec![known.clone(), "grove-ffff".to_string(), session_name(7)];
    assert_eq!(
        m.find_orphaned_sessions(Ok(sessions), &[ID, 7]),
        Ok(vec!["grove-ffff".to_string()])
    );
    assert_eq!(
        m.find_orphaned_sessions(Ok(vec![known.clone()]), &[]),
        Ok(vec![known])
    );
    assert!(m.find_orphaned_sessions(Err("no server".to_string()), &[ID]).is_err());
}

#[test]
fn restart_of_a_running_remote_session_sends_the_interrupt_key() {
    let m = manager();
    let a = remote_agent();
    let stage = match m.restart_agent(&a, "aider") {
        Step::Next(s, Action::LoadConfig) => s,
        other => panic!("unexpected {:?}", other),
    };
    let stage = match m.resume_restart_agent(&a, "aider", stage, config()) {
        Step::Next(s, _) => s,
        other => panic!("unexpected {:?}", other),
    };
    let stage = match m.resume_restart_agent(&a, "aider", stage, ran("", "", 0)) {
        Step::Next(s @ RestartStage::Interrupt { .. }, Action::Session(SessionTask::Remote { command, .. })) => {
            assert_eq!(command, format!("tmux send-keys -t '{}' C-c", a.tmux_session));
            s
        }
        other => panic!("unexpected {:?}", other),
    };
    let stage = match m.resume_restart_agent(&a, "aider", stage, ran("", "", 0)) {
        Step::Next(s, Action::Sleep { millis: 100 }) => s,
        other => panic!("unexpected {:?}", other),
    };
    let stage = match m.resume_restart_agent(&a, "aider", stage, Reply::Finished(Ok(()))) {
        Step::Next(s, Action::Session(SessionTask::Remote { command, .. })) => {
            assert_eq!(
                command,
                format!("tmux send-keys -t '{0}' 'aider' && tmux send-keys -t '{0}' Enter", a.tmux_session)
            );
            s
        }
        other => panic!("unexpected {:?}", other),
    };
    assert!(matches!(m.resume_restart_agent(&a, "aider", stage, ran("", "", 0)), Step::Done(Ok(()))));
}

#[test]
fn running_sessions_are_the_grove_lines_of_the_listing() {
    let listed = Ok("grove-1\nother\ngrove-2\n".to_string());
    assert_eq!(
        AgentManager::list_running_sessions(listed).unwrap(),
        vec!["grove-1".to_string(), "grove-2".to_string()]
    );
    match AgentManager::list_running_sessions(Err("no tmux".to_string())) {
        Err(e) => assert_eq!(e.message(), "no tmux"),
        Ok(_) => panic!(),
    }
    assert_eq!(
        grove::tmux::list_sessions_args(),
        vec!["list-sessions".to_string(), "-F".to_string(), "#{session_name}".to_string()]
    );
}

#[test]
fn knowing_more_agents_leaves_fewer_orphans() {
    let m = manager();
    let s1 = session_name(1);
    let s2 = session_name(2);
    let sessions = vec![s1.clone(), "grove-x".to_string(), s2.clone()];
    assert_eq!(m.find_orphaned_sessions(Ok(sessions.clone()), &[]).unwrap(), sessions);
    assert_eq!(
        m.find_orphaned_sessions(Ok(sessions.clone()), &[1]).unwrap(),
        vec!["grove-x".to_string(), s2.clone()]
    );
    assert_eq!(m.find_orphaned_sessions(Ok(sessions), &[1, 2]).unwrap(), vec!["grove-x".to_string()]);
}
