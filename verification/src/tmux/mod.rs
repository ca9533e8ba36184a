//! One handle for a tmux session, on this machine or on a remote host. Each operation is
//! a task that the caller carries out; what the task gave back is read here.
use vstd::prelude::*;

use crate::error::{FailedStep, GroveError};
use crate::ssh::remote::{
    capture_line, create_line, current_command_line, exists_line, kill_line, local_attach_line,
    pane_size_line, pane_size_of, send_keys_line, unit_result,
};
use crate::ssh::{exec_result, CommandOutput, RemoteTmuxSession, SshClient, SshClientView};
use crate::text::{has_prefix, has_substring, lines, lines_with_prefix, to_owned, trimmed};

verus! {

/// A tmux session on this machine, known by its name. Its operations are carried out by
/// the caller, which runs tmux here.
#[derive(Debug)]
pub struct TmuxSession {
    name: String,
}

impl TmuxSession {
    /// The session called `name`.
    pub fn new(name: &str) -> (r: Self)
        ensures
            r.spec_name() == name@,
    {
        TmuxSession { name: to_owned(name) }
    }

    /// The session's name.
    pub fn name(&self) -> (r: &str)
        ensures
            r@ == self.spec_name(),
    {
        self.name.as_str()
    }

    /// The session's name, as a value.
    pub closed spec fn spec_name(&self) -> Seq<char> {
        self.name@
    }
}

/// An operation on a session.
#[derive(Debug)]
pub enum TmuxOp {
    /// Whether the session exists.
    Exists,
    /// Start the session in `working_dir` and type `command` into it.
    Create { working_dir: String, command: String },
    /// The last `lines` lines of the pane.
    CapturePane { lines: usize },
    /// Type `keys` and press Enter.
    SendKeys { keys: String },
    /// End the session.
    Kill,
    /// The command running in the pane.
    PaneCurrentCommand,
    /// The pane's width and height.
    PaneSize,
    /// Attach the terminal to the session.
    Attach,
}

/// `TmuxOp` as plain values.
pub enum TmuxOpView {
    Exists,
    Create { working_dir: Seq<char>, command: Seq<char> },
    CapturePane { lines: usize },
    SendKeys { keys: Seq<char> },
    Kill,
    PaneCurrentCommand,
    PaneSize,
    Attach,
}

impl View for TmuxOp {
    type V = TmuxOpView;

    open spec fn view(&self) -> TmuxOpView {
        match self {
            TmuxOp::Exists => TmuxOpView::Exists,
            TmuxOp::Create { working_dir, command } => TmuxOpView::Create {
                working_dir: working_dir@,
                command: command@,
            },
            TmuxOp::CapturePane { lines } => TmuxOpView::CapturePane { lines: *lines },
            TmuxOp::SendKeys { keys } => TmuxOpView::SendKeys { keys: keys@ },
            TmuxOp::Kill => TmuxOpView::Kill,
            TmuxOp::PaneCurrentCommand => TmuxOpView::PaneCurrentCommand,
            TmuxOp::PaneSize => TmuxOpView::PaneSize,
            TmuxOp::Attach => TmuxOpView::Attach,
        }
    }
}

/// Work on a session that the caller carries out.
#[derive(Debug)]
pub enum SessionTask {
    /// Do `op` on the local session called `session`.
    Local { session: String, op: TmuxOp },
    /// Run `command` on `client`'s host over SSH.
    Remote { client: SshClient, command: String },
    /// Run `command` in a local shell, with the terminal attached to it.
    Shell { command: String },
}

/// `SessionTask` as plain values.
pub enum SessionTaskView {
    Local { session: Seq<char>, op: TmuxOpView },
    Remote { client: SshClientView, command: Seq<char> },
    Shell { command: Seq<char> },
}

impl View for SessionTask {
    type V = SessionTaskView;

    open spec fn view(&self) -> SessionTaskView {
        match self {
            SessionTask::Local { session, op } => SessionTaskView::Local {
                session: session@,
                op: op@,
            },
            SessionTask::Remote { client, command } => SessionTaskView::Remote {
                client: client@,
                command: command@,
            },
            SessionTask::Shell { command } => SessionTaskView::Shell { command: command@ },
        }
    }
}

/// What carrying out a task gave back.
#[derive(Debug)]
pub enum SessionReply {
    /// The local session answered whether it exists.
    Exists(bool),
    /// A local operation finished, or failed for the reason given.
    Finished(Result<(), String>),
    /// A local operation that reads text finished.
    Text(Result<String, String>),
    /// The remote command ran, or the transport failed for the reason given.
    Ran(Result<CommandOutput, String>),
    /// The local shell command exited, successfully or not, or could not be started.
    Exited(Result<bool, String>),
    /// The local session named the command running in its pane, if any.
    Command(Option<String>),
    /// The local session gave its pane's width and height.
    Size(Result<(u16, u16), String>),
}

/// A failure that the caller reported, with no context.
pub open spec fn reported(cause: String) -> GroveError {
    GroveError::Failed { context: None, cause }
}

/// The arguments of the `tmux` run that lists the names of the sessions on this machine.
pub fn list_sessions_args() -> (r: Vec<String>)
    ensures
        r.len() == 3,
        r[0]@ == "list-sessions"@,
        r[1]@ == "-F"@,
        r[2]@ == "#{session_name}"@,
{
    let mut r: Vec<String> = Vec::new();
    r.push(to_owned("list-sessions"));
    r.push(to_owned("-F"));
    r.push(to_owned("#{session_name}"));
    r
}

/// The grove sessions among the session names that `tmux` printed (`listed`, or why it
/// could not be run): the lines that begin with `grove-`, in order.
pub fn list_grove_sessions(listed: Result<String, String>) -> (r: Result<Vec<String>, GroveError>)
    ensures
        match listed {
            Err(m) => r == Err::<Vec<String>, GroveError>(reported(m)),
            Ok(out) => r matches Ok(v) && v.len() == lines(out@).filter(
                |l: Seq<char>| has_prefix(l, "grove-"@),
            ).len() && forall|k: int|
                0 <= k < v.len() ==> #[trigger] v[k]@ == lines(out@).filter(
                    |l: Seq<char>| has_prefix(l, "grove-"@),
                )[k],
        },
{
    match listed {
        Err(m) => Err(GroveError::Failed { context: None, cause: m }),
        Ok(out) => Ok(lines_with_prefix(out.as_str(), "grove-")),
    }
}

/// A session on this machine or on a remote host.
#[derive(Debug)]
pub enum TmuxHandle<'a> {
    Local(TmuxSession),
    Remote(RemoteTmuxSession<'a>),
}


/// The command that carries out `op` on remote session `name` (all but attaching).
pub open spec fn remote_line(name: Seq<char>, op: TmuxOpView) -> Seq<char> {
    match op {
        TmuxOpView::Exists => exists_line(name),
        TmuxOpView::Create { working_dir, command } => create_line(name, working_dir, command),
        TmuxOpView::CapturePane { lines } => capture_line(name, lines),
        TmuxOpView::SendKeys { keys } => send_keys_line(name, keys),
        TmuxOpView::Kill => kill_line(name),
        TmuxOpView::PaneCurrentCommand => current_command_line(name),
        TmuxOpView::PaneSize => pane_size_line(name),
        TmuxOpView::Attach => seq![],
    }
}

/// The task that carries out `op` on session `name`: on this machine when `local`, else on
/// `client`'s host, where attaching runs an `ssh` command in a local shell.
pub open spec fn session_task(
    local: bool,
    client: SshClientView,
    name: Seq<char>,
    op: TmuxOpView,
) -> SessionTaskView {
    if local {
        SessionTaskView::Local { session: name, op }
    } else {
        match op {
            TmuxOpView::Attach => SessionTaskView::Shell {
                command: local_attach_line(client, name),
            },
            _ => SessionTaskView::Remote { client, command: remote_line(name, op) },
        }
    }
}

/// Whether `h` stands for a session on this machine.
pub open spec fn handle_local(h: TmuxHandle) -> bool {
    h is Local
}

/// The name of the session that `h` stands for.
pub open spec fn handle_name(h: TmuxHandle) -> Seq<char> {
    match h {
        TmuxHandle::Local(s) => s.spec_name(),
        TmuxHandle::Remote(r) => r@.session_name,
    }
}

/// The client of a remote handle.
pub open spec fn handle_client(h: TmuxHandle) -> SshClientView {
    match h {
        TmuxHandle::Local(_) => arbitrary(),
        TmuxHandle::Remote(r) => r@.client,
    }
}

/// The task that carries out `op` on the session that `h` stands for.
pub open spec fn task_for(h: TmuxHandle, op: TmuxOpView) -> SessionTaskView {
    session_task(handle_local(h), handle_client(h), handle_name(h), op)
}

/// What a reply says of whether a session exists; `None` when the reply does not answer
/// that question for a local (`local`) or remote session.
pub open spec fn exists_reply(local: bool, reply: SessionReply) -> Option<bool> {
    match reply {
        SessionReply::Exists(b) => if local { Some(b) } else { None },
        SessionReply::Ran(run) => if local { None } else { Some(exec_result(run) is Ok) },
        _ => None,
    }
}

/// What a reply says of an operation that gives nothing back (create, send keys, kill,
/// attach); `None` when the reply does not answer such an operation.
pub open spec fn done_reply(local: bool, reply: SessionReply) -> Option<Result<(), GroveError>> {
    match reply {
        SessionReply::Finished(f) => if local {
            Some(
                match f {
                    Ok(()) => Ok(()),
                    Err(m) => Err(reported(m)),
                },
            )
        } else {
            None
        },
        SessionReply::Ran(run) => if local { None } else { Some(unit_result(run)) },
        SessionReply::Exited(st) => if local {
            None
        } else {
            Some(
                match st {
                    Ok(true) => Ok(()),
                    Ok(false) => Err(GroveError::AttachFailed),
                    Err(m) => Err(GroveError::Failed { context: Some(FailedStep::RunAttach), cause: m }),
                },
            )
        },
        _ => None,
    }
}

/// What a reply says of a pane's contents: the text, or the error; `None` when the reply
/// does not answer a capture.
pub open spec fn text_reply(local: bool, reply: SessionReply) -> Option<Result<Seq<char>, GroveError>> {
    match reply {
        SessionReply::Text(t) => if local {
            Some(
                match t {
                    Ok(x) => Ok(x@),
                    Err(m) => Err(reported(m)),
                },
            )
        } else {
            None
        },
        SessionReply::Ran(run) => if local {
            None
        } else {
            Some(
                match run {
                    Err(m) => Err(GroveError::Ssh(m)),
                    Ok(o) => if o.exit_code != 0 && o.stderr@.len() > 0 && !has_substring(
                        o.stderr@,
                        "no current window"@,
                    ) {
                        Err(GroveError::CaptureFailed { stderr: o.stderr })
                    } else {
                        Ok(o.stdout@)
                    },
                },
            )
        },
        _ => None,
    }
}

impl<'a> TmuxHandle<'a> {
    pub(crate) fn task(&self, op: TmuxOp) -> (r: SessionTask)
        ensures
            r@ == task_for(*self, op@),
    {
        match self {
            TmuxHandle::Local(s) => SessionTask::Local { session: to_owned(s.name()), op },
            TmuxHandle::Remote(s) => {
                let client = s.client().duplicate();
                match op {
                    TmuxOp::Exists => SessionTask::Remote { client, command: s.exists_command() },
                    TmuxOp::Create { working_dir, command } => SessionTask::Remote {
                        client,
                        command: s.create_command(working_dir.as_str(), command.as_str()),
                    },
                    TmuxOp::CapturePane { lines } => SessionTask::Remote {
                        client,
                        command: s.capture_pane_command(lines),
                    },
                    TmuxOp::SendKeys { keys } => SessionTask::Remote {
                        client,
                        command: s.send_keys_command(keys.as_str()),
                    },
                    TmuxOp::Kill => SessionTask::Remote { client, command: s.kill_command() },
                    TmuxOp::PaneCurrentCommand => SessionTask::Remote {
                        client,
                        command: s.pane_current_command_command(),
                    },
                    TmuxOp::PaneSize => SessionTask::Remote {
                        client,
                        command: s.pane_size_command(),
                    },
                    TmuxOp::Attach => SessionTask::Shell { command: s.local_attach_command() },
                }
            },
        }
    }

    /// The task that tells whether the session exists.
    pub fn session_exists(&self) -> (r: SessionTask)
        ensures
            r@ == task_for(*self, TmuxOpView::Exists),
    {
        self.task(TmuxOp::Exists)
    }

    /// The task that starts the session in `working_dir` and types `command` into it.
    pub fn create(&self, working_dir: &str, command: &str) -> (r: SessionTask)
        ensures
            r@ == task_for(
                *self,
                TmuxOpView::Create { working_dir: working_dir@, command: command@ },
            ),
    {
        self.task(TmuxOp::Create { working_dir: to_owned(working_dir), command: to_owned(command) })
    }

    /// The task that reads the last `lines` lines of the pane.
    pub fn capture_pane(&self, lines: usize) -> (r: SessionTask)
        ensures
            r@ == task_for(*self, TmuxOpView::CapturePane { lines }),
    {
        self.task(TmuxOp::CapturePane { lines })
    }

    /// The task that types `keys` and presses Enter.
    pub fn send_keys(&self, keys: &str) -> (r: SessionTask)
        ensures
            r@ == task_for(*self, TmuxOpView::SendKeys { keys: keys@ }),
    {
        self.task(TmuxOp::SendKeys { keys: to_owned(keys) })
    }

    /// The task that ends the session.
    pub fn kill(&self) -> (r: SessionTask)
        ensures
            r@ == task_for(*self, TmuxOpView::Kill),
    {
        self.task(TmuxOp::Kill)
    }

    /// The task that reads the command running in the pane.
    pub fn pane_current_command(&self) -> (r: SessionTask)
        ensures
            r@ == task_for(*self, TmuxOpView::PaneCurrentCommand),
    {
        self.task(TmuxOp::PaneCurrentCommand)
    }

    /// The task that reads the pane's width and height.
    pub fn pane_size(&self) -> (r: SessionTask)
        ensures
            r@ == task_for(*self, TmuxOpView::PaneSize),
    {
        self.task(TmuxOp::PaneSize)
    }

    /// The task that attaches the terminal to the session.
    pub fn attach(&self) -> (r: SessionTask)
        ensures
            r@ == task_for(*self, TmuxOpView::Attach),
    {
        self.task(TmuxOp::Attach)
    }

    /// Whether the session exists, from the reply to `session_exists`.
    pub fn read_exists(&self, reply: SessionReply) -> (r: Option<bool>)
        ensures
            r == exists_reply(handle_local(*self), reply),
    {
        match (self, reply) {
            (TmuxHandle::Local(_), SessionReply::Exists(b)) => Some(b),
            (TmuxHandle::Remote(s), SessionReply::Ran(run)) => Some(s.session_exists(run)),
            _ => None,
        }
    }

    /// The outcome of an operation that gives nothing back, from its reply.
    pub fn read_done(&self, reply: SessionReply) -> (r: Option<Result<(), GroveError>>)
        ensures
            r == done_reply(handle_local(*self), reply),
    {
        match (self, reply) {
            (TmuxHandle::Local(_), SessionReply::Finished(Ok(()))) => Some(Ok(())),
            (TmuxHandle::Local(_), SessionReply::Finished(Err(m))) => Some(
                Err(GroveError::Failed { context: None, cause: m }),
            ),
            (TmuxHandle::Remote(s), SessionReply::Ran(run)) => Some(
                match s.client().execute(run) {
                    Ok(_) => Ok(()),
                    Err(e) => Err(e),
                },
            ),
            (TmuxHandle::Remote(s), SessionReply::Exited(st)) => Some(s.attach(st)),
            _ => None,
        }
    }

    /// The pane's contents, from the reply to `capture_pane`.
    pub fn read_text(&self, reply: SessionReply) -> (r: Option<Result<String, GroveError>>)
        ensures
            match (r, text_reply(handle_local(*self), reply)) {
                (None, None) => true,
                (Some(Ok(t)), Some(Ok(u))) => t@ == u,
                (Some(Err(e)), Some(Err(f))) => e == f,
                _ => false,
            },
    {
        match (self, reply) {
            (TmuxHandle::Local(_), SessionReply::Text(Ok(t))) => Some(Ok(t)),
            (TmuxHandle::Local(_), SessionReply::Text(Err(m))) => Some(
                Err(GroveError::Failed { context: None, cause: m }),
            ),
            (TmuxHandle::Remote(s), SessionReply::Ran(run)) => Some(s.capture_pane(run)),
            _ => None,
        }
    }

    /// The command running in the pane, from the reply to `pane_current_command`; the outer
    /// `None` when the reply does not answer that question.
    pub fn read_command(&self, reply: SessionReply) -> (r: Option<Option<String>>)
        ensures
            match (*self, reply) {
                (TmuxHandle::Local(_), SessionReply::Command(c)) => r == Some(c),
                (TmuxHandle::Remote(_), SessionReply::Ran(run)) => match exec_result(run) {
                    Ok(out) => if trimmed(out).len() > 0 {
                        r matches Some(Some(s)) && s@ == trimmed(out)
                    } else {
                        r == Some(None::<String>)
                    },
                    Err(_) => r == Some(None::<String>),
                },
                _ => r is None,
            },
    {
        match (self, reply) {
            (TmuxHandle::Local(_), SessionReply::Command(c)) => Some(c),
            (TmuxHandle::Remote(s), SessionReply::Ran(run)) => Some(s.pane_current_command(run)),
            _ => None,
        }
    }

    /// The pane's `(width, height)`, from the reply to `pane_size`; `None` when the reply
    /// does not answer that question.
    pub fn read_size(&self, reply: SessionReply) -> (r: Option<Result<(u16, u16), GroveError>>)
        ensures
            match (*self, reply) {
                (TmuxHandle::Local(_), SessionReply::Size(Ok(p))) => r == Some(Ok::<(u16, u16), GroveError>(p)),
                (TmuxHandle::Local(_), SessionReply::Size(Err(m))) => r == Some(Err::<(u16, u16), GroveError>(reported(m))),
                (TmuxHandle::Remote(_), SessionReply::Ran(run)) => match exec_result(run) {
                    Ok(out) => r == Some(Ok::<(u16, u16), GroveError>(pane_size_of(out))),
                    Err(e) => r == Some(Err::<(u16, u16), GroveError>(e)),
                },
                _ => r is None,
            },
    {
        match (self, reply) {
            (TmuxHandle::Local(_), SessionReply::Size(Ok(p))) => Some(Ok(p)),
            (TmuxHandle::Local(_), SessionReply::Size(Err(m))) => Some(
                Err(GroveError::Failed { context: None, cause: m }),
            ),
            (TmuxHandle::Remote(s), SessionReply::Ran(run)) => Some(s.pane_size(run)),
            _ => None,
        }
    }
}

} // verus!
