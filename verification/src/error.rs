//! The errors of the library and the messages they read as.
use vstd::prelude::*;

use crate::text::{push_signed, signed_decimal};

verus! {

/// What went wrong.
#[derive(Debug, Clone, PartialEq, Eq)]
pub enum GroveError {
    /// Connecting to, authenticating with or talking to a remote host failed; the text is
    /// the transport's own account of it.
    Ssh(String),
    /// A remote command ran and exited with a non-zero status; `output` is what it printed.
    CommandFailed { status: i32, output: String },
    /// Capturing a remote pane failed; `stderr` is what tmux printed.
    CaptureFailed { stderr: String },
    /// The remote host answered the connection test with an error that says it is
    /// unreachable.
    ConnectFailed { host: String, stderr: String },
    /// Neither a key file nor an SSH agent is available.
    NoAuthMethod,
    /// The server did not accept the credentials.
    AuthFailed,
    /// A remote agent names no host.
    MissingRemoteHost,
    /// A remote agent names no worktree path.
    MissingWorktreePath,
    /// No host of the configuration has this name.
    UnknownHost { name: String },
    /// The agent's local tmux session is not running.
    SessionMissing,
    /// The agent's remote tmux session is not running.
    RemoteSessionMissing,
    /// The local `tmux attach` process exited with a failure status.
    AttachFailed,
    /// A step carried out outside the library (git, local tmux, the configuration file, a
    /// local process) failed with `cause`; `context` names the step where one is given.
    Failed { context: Option<FailedStep>, cause: String },
}

/// The steps whose failure is reported under a name of their own.
#[derive(Debug, Clone, Copy, PartialEq, Eq)]
pub enum FailedStep {
    CreateWorktree,
    CreateSymlinks,
    CreateSession,
    KillSession,
    RemoveWorktree,
    RunAttach,
}

/// What a failed step is reported as.
pub open spec fn step_text(s: FailedStep) -> Seq<char> {
    match s {
        FailedStep::CreateWorktree => "Failed to create worktree"@,
        FailedStep::CreateSymlinks => "Failed to create worktree symlinks"@,
        FailedStep::CreateSession => "Failed to create tmux session"@,
        FailedStep::KillSession => "Failed to kill tmux session"@,
        FailedStep::RemoveWorktree => "Failed to remove worktree"@,
        FailedStep::RunAttach => "Failed to run tmux attach"@,
    }
}

impl FailedStep {
    /// What the step is reported as.
    pub fn text(&self) -> (r: &'static str)
        ensures
            r@ == step_text(*self),
    {
        match self {
            FailedStep::CreateWorktree => "Failed to create worktree",
            FailedStep::CreateSymlinks => "Failed to create worktree symlinks",
            FailedStep::CreateSession => "Failed to create tmux session",
            FailedStep::KillSession => "Failed to kill tmux session",
            FailedStep::RemoveWorktree => "Failed to remove worktree",
            FailedStep::RunAttach => "Failed to run tmux attach",
        }
    }
}

/// The text that each error reads as.
pub open spec fn error_message(e: GroveError) -> Seq<char> {
    match e {
        GroveError::Ssh(m) => m@,
        GroveError::CommandFailed { status, output } => "Command exited with status "@
            + signed_decimal(status as int) + ": "@ + output@,
        GroveError::CaptureFailed { stderr } => "Failed to capture pane: "@ + stderr@,
        GroveError::ConnectFailed { host, stderr } => "Failed to connect to "@ + host@ + ": "@
            + stderr@,
        GroveError::NoAuthMethod =>
            "No authentication method available. Set SSH_AUTH_SOCK or provide identity_file"@,
        GroveError::AuthFailed => "SSH authentication failed"@,
        GroveError::MissingRemoteHost => "Remote agent missing host configuration"@,
        GroveError::MissingWorktreePath => "Remote agent missing worktree path"@,
        GroveError::UnknownHost { name } => "Unknown remote host: "@ + name@,
        GroveError::SessionMissing => "Tmux session does not exist"@,
        GroveError::RemoteSessionMissing => "Remote tmux session does not exist"@,
        GroveError::AttachFailed => "tmux attach exited with error"@,
        GroveError::Failed { context, cause } => match context {
            Some(c) => step_text(c),
            None => cause@,
        },
    }
}

impl GroveError {
    /// The text of the error, as it is shown to the user.
    pub fn message(&self) -> (r: String)
        ensures
            r@ == error_message(*self),
    {
        let mut r = String::new();
        match self {
            GroveError::Ssh(m) => r.append(m.as_str()),
            GroveError::CommandFailed { status, output } => {
                r.append("Command exited with status ");
                push_signed(&mut r, *status as i64);
                r.append(": ");
                r.append(output.as_str());
            },
            GroveError::CaptureFailed { stderr } => {
                r.append("Failed to capture pane: ");
                r.append(stderr.as_str());
            },
            GroveError::ConnectFailed { host, stderr } => {
                r.append("Failed to connect to ");
                r.append(host.as_str());
                r.append(": ");
                r.append(stderr.as_str());
            },
            GroveError::NoAuthMethod => r.append(
                "No authentication method available. Set SSH_AUTH_SOCK or provide identity_file",
            ),
            GroveError::AuthFailed => r.append("SSH authentication failed"),
            GroveError::MissingRemoteHost => r.append("Remote agent missing host configuration"),
            GroveError::MissingWorktreePath => r.append("Remote agent missing worktree path"),
            GroveError::UnknownHost { name } => {
                r.append("Unknown remote host: ");
                r.append(name.as_str());
            },
            GroveError::SessionMissing => r.append("Tmux session does not exist"),
            GroveError::RemoteSessionMissing => r.append("Remote tmux session does not exist"),
            GroveError::AttachFailed => r.append("tmux attach exited with error"),
            GroveError::Failed { context, cause } => match context {
                Some(c) => r.append(c.text()),
                None => r.append(cause.as_str()),
            },
        }
        r
    }
}

} // verus!
