use std::sync::Arc;

use grove::config::RemoteHost;
use grove::error::GroveError;
use grove::ssh::{pool_key_of, AuthMethod, CommandOutput, ConnectionPool, SshClient};

fn ran(stdout: &str, stderr: &str, code: i32) -> Result<CommandOutput, String> {
    Ok(CommandOutput { stdout: stdout.to_string(), stderr: stderr.to_string(), exit_code: code })
}

fn host(name: &str, host: &str, user: &str, port: u16) -> RemoteHost {
    RemoteHost {
        name: name.to_string(),
        host: host.to_string(),
        user: user.to_string(),
        port,
        identity_file: Some("/home/me/.ssh/id".to_string()),
        worktree_dir: "/srv/work".to_string(),
    }
}

#[test]
fn client_keeps_what_it_was_made_with() {
    let c = SshClient::new("example.org", "me", 2222, None);
    assert_eq!(c.host(), "example.org");
    assert_eq!(c.user(), "me");
    assert_eq!(c.port(), 2222);
    assert_eq!(c.address(), "example.org:2222");
}

#[test]
fn from_config_copies_the_host() {
    let c = SshClient::from_config(&host("box", "10.0.0.5", "dev", 22)).unwrap();
    assert_eq!(c.host(), "10.0.0.5");
    assert_eq!(c.user(), "dev");
    assert_eq!(c.port(), 22);
    match c.auth_method(false).unwrap() {
        AuthMethod::PublicKey { user, key_path } => {
            assert_eq!(user, "dev");
            assert_eq!(key_path, "/home/me/.ssh/id");
        }
        other => panic!("unexpected {:?}", other),
    }
}

#[test]
fn auth_prefers_key_then_agent() {
    let c = SshClient::new("h", "u", 22, None);
    assert!(matches!(c.auth_method(true), Ok(AuthMethod::Agent { ref user }) if user == "u"));
    let e = c.auth_method(false).unwrap_err();
    assert_eq!(e, GroveError::NoAuthMethod);
    assert_eq!(
        e.message(),
        "No authentication method available. Set SSH_AUTH_SOCK or provide identity_file"
    );
    assert_eq!(SshClient::confirm_authenticated(true), Ok(()));
    assert_eq!(SshClient::confirm_authenticated(false), Err(GroveError::AuthFailed));
}

#[test]
fn execute_fails_on_non_zero_status() {
    let c = SshClient::new("h", "u", 22, None);
    assert_eq!(c.execute(ran("out\n", "", 0)), Ok("out\n".to_string()));
    let e = c.execute(ran("oops", "err", 2)).unwrap_err();
    assert_eq!(e, GroveError::CommandFailed { status: 2, output: "oops".to_string() });
    assert_eq!(e.message(), "Command exited with status 2: oops");
    let e = c.execute(ran("", "", -1)).unwrap_err();
    assert_eq!(e.message(), "Command exited with status -1: ");
    assert_eq!(c.execute(Err("handshake failed".to_string())), Err(GroveError::Ssh("handshake failed".to_string())));
}

#[test]
fn execute_with_exit_code_keeps_status() {
    let c = SshClient::new("h", "u", 22, None);
    assert_eq!(c.execute_with_exit_code(ran("x", "", 3)), Ok(("x".to_string(), 3)));
}

#[test]
fn capture_fails_only_with_status_and_stderr() {
    let c = SshClient::new("h", "u", 22, None);
    assert_eq!(c.capture(ran("o", "", 1)), Ok(("o".to_string(), "".to_string())));
    assert_eq!(c.capture(ran("o", "w", 0)), Ok(("o".to_string(), "w".to_string())));
    assert_eq!(
        c.capture(ran("o", "bad", 1)),
        Err(GroveError::CommandFailed { status: 1, output: "bad".to_string() })
    );
    let o = c.capture_output(ran("a", "b", 7)).unwrap();
    assert_eq!((o.stdout.as_str(), o.stderr.as_str(), o.exit_code), ("a", "b", 7));
    assert!(!o.success());
    assert!(CommandOutput { stdout: String::new(), stderr: String::new(), exit_code: 0 }.success());
}

#[test]
fn connection_test_reads_stderr() {
    let c = SshClient::new("host.example", "u", 22, None);
    assert_eq!(SshClient::test_connection_command(), "echo 'SSH connection test'");
    assert_eq!(c.test_connection(ran("SSH connection test\n", "", 0)), Ok(()));
    let e = c.test_connection(ran("", "ssh: connection refused", 0)).unwrap_err();
    assert_eq!(e.message(), "Failed to connect to host.example: ssh: connection refused");
    assert!(c.test_connection(ran("", "no route to host", 0)).is_err());
    assert!(c.test_connection(ran("", "connection timed out", 0)).is_err());
    assert_eq!(
        c.test_connection(ran("", "failed", 255)),
        Err(GroveError::CommandFailed { status: 255, output: "failed".to_string() })
    );
}

#[test]
fn tmux_availability_from_which() {
    let c = SshClient::new("h", "u", 22, None);
    assert_eq!(SshClient::check_tmux_command(), "which tmux 2>/dev/null || echo ''");
    assert_eq!(c.check_tmux_available(ran("/usr/bin/tmux\n", "", 0)), Ok(true));
    assert_eq!(c.check_tmux_available(ran("\n", "", 0)), Ok(false));
    assert!(c.check_tmux_available(Err("down".to_string())).is_err());
}

#[test]
fn pool_hands_out_one_client_per_user_host_port() {
    let mut pool = ConnectionPool::new();
    let a = pool.get_or_create(&host("a", "h1", "u", 22)).unwrap();
    let b = pool.get_or_create(&host("other-name", "h1", "u", 22)).unwrap();
    assert!(Arc::ptr_eq(&a, &b));
    let c = pool.get_or_create(&host("a", "h1", "u", 2222)).unwrap();
    assert!(!Arc::ptr_eq(&a, &c));
    assert_eq!(c.port(), 2222);
    pool.remove("h1", "u", 22);
    let d = pool.get_or_create(&host("a", "h1", "u", 22)).unwrap();
    assert!(!Arc::ptr_eq(&a, &d));
    let e = pool.get_or_create(&host("a", "h1", "u", 2222)).unwrap();
    assert!(Arc::ptr_eq(&c, &e));
    pool.clear();
    let f = pool.get_or_create(&host("a", "h1", "u", 2222)).unwrap();
    assert!(!Arc::ptr_eq(&c, &f));
    let mut g = ConnectionPool::default();
    let x = g.get_or_create(&host("a", "h9", "u", 22)).unwrap();
    assert_eq!(x.host(), "h9");
}

#[test]
fn pool_key_is_user_at_host_colon_port() {
    assert_eq!(pool_key_of("me", "example.org", 22), "me@example.org:22");
}
