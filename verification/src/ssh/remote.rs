//! tmux sessions on a remote host: the commands that drive them over SSH, and what the
//! outcome of each command means.
use vstd::prelude::*;

use super::{exec_result, CommandOutput, SshClient, SshClientView};
use crate::error::{FailedStep, GroveError};
use crate::text::{
    decimal, has_substring, lines, lines_with_prefix, parse_u16, parse_u16_spec,
    push_decimal, shell_quote, single_quoted, split_whitespace, to_owned, trim, trimmed, words,
    contains, has_prefix,
};

verus! {

/// `Ok(())` when the command succeeded, else its error.
pub open spec fn unit_result(run: Result<CommandOutput, String>) -> Result<(), GroveError> {
    match exec_result(run) {
        Ok(_) => Ok(()),
        Err(e) => Err(e),
    }
}

/// What a remote session is made of, as plain values.
pub struct RemoteSessionView {
    pub client: SshClientView,
    pub session_name: Seq<char>,
    pub pane_id: Option<Seq<char>>,
}

/// A tmux session on the host that `client` reaches.
#[derive(Debug)]
pub struct RemoteTmuxSession<'a> {
    client: &'a SshClient,
    session_name: String,
    pane_id: Option<String>,
}

impl<'a> RemoteTmuxSession<'a> {
    /// No operation chooses a pane: it stays unset from `new` on.
    #[verifier::type_invariant]
    spec fn no_pane_chosen(self) -> bool {
        self.pane_id is None
    }
}

impl<'a> View for RemoteTmuxSession<'a> {
    type V = RemoteSessionView;

    closed spec fn view(&self) -> RemoteSessionView {
        RemoteSessionView {
            client: self.client@,
            session_name: self.session_name@,
            pane_id: super::opt_view(self.pane_id),
        }
    }
}

/// `tmux <verb> -t '<name>'`.
pub open spec fn tmux_target(verb: Seq<char>, name: Seq<char>) -> Seq<char> {
    "tmux "@ + verb + " -t '"@ + name + "'"@
}

/// The command that starts session `name` in `dir` and types `cmd` into it.
pub open spec fn create_line(name: Seq<char>, dir: Seq<char>, cmd: Seq<char>) -> Seq<char> {
    "tmux new-session -d -s '"@ + name + "' -c "@ + single_quoted(dir) + " && "@
        + tmux_target("send-keys"@, name) + " "@ + single_quoted(cmd) + " Enter"@
}

/// The command that starts session `name` in `dir` with a `width` x `height` window and
/// types `cmd` into it.
pub open spec fn create_sized_line(
    name: Seq<char>,
    dir: Seq<char>,
    cmd: Seq<char>,
    width: u16,
    height: u16,
) -> Seq<char> {
    "tmux new-session -d -s '"@ + name + "' -x "@ + decimal(width as nat) + " -y "@ + decimal(
        height as nat,
    ) + " -c "@ + single_quoted(dir) + " && "@ + tmux_target("send-keys"@, name) + " "@
        + single_quoted(cmd) + " Enter"@
}

/// The attach command run on the remote host.
pub open spec fn attach_line(name: Seq<char>) -> Seq<char> {
    "tmux -CC attach-session -t '"@ + name + "'"@
}

/// The command that asks whether session `name` exists.
pub open spec fn exists_line(name: Seq<char>) -> Seq<char> {
    tmux_target("has-session"@, name) + " 2>/dev/null"@
}

/// The command that prints the last `lines` lines of session `name`'s pane.
pub open spec fn capture_line(name: Seq<char>, lines: usize) -> Seq<char> {
    tmux_target("capture-pane"@, name) + " -p -e -J -S -"@ + decimal(lines as nat)
}

/// The command that types `keys` literally into session `name`.
pub open spec fn send_raw_line(name: Seq<char>, keys: Seq<char>) -> Seq<char> {
    tmux_target("send-keys"@, name) + " -l "@ + single_quoted(keys)
}

/// The command that sends the interrupt key (Ctrl-C) to session `name`.
pub open spec fn interrupt_line(name: Seq<char>) -> Seq<char> {
    tmux_target("send-keys"@, name) + " C-c"@
}

/// The command that types `keys` into session `name` and presses Enter.
pub open spec fn send_keys_line(name: Seq<char>, keys: Seq<char>) -> Seq<char> {
    tmux_target("send-keys"@, name) + " "@ + single_quoted(keys) + " && "@ + tmux_target(
        "send-keys"@,
        name,
    ) + " Enter"@
}

/// The command that pastes `text` into session `name` through a tmux buffer.
pub open spec fn send_text_line(name: Seq<char>, text: Seq<char>) -> Seq<char> {
    tmux_target("set-buffer"@, name) + " "@ + single_quoted(text) + " && "@ + tmux_target(
        "paste-buffer"@,
        name,
    )
}

/// The command that ends session `name`.
pub open spec fn kill_line(name: Seq<char>) -> Seq<char> {
    tmux_target("kill-session"@, name) + " 2>/dev/null || true"@
}

/// The command that prints the command running in session `name`'s pane.
pub open spec fn current_command_line(name: Seq<char>) -> Seq<char> {
    tmux_target("display-message"@, name) + " -p '#{pane_current_command}'"@
}

/// The command that prints the size of session `name`'s pane.
pub open spec fn pane_size_line(name: Seq<char>) -> Seq<char> {
    tmux_target("display-message"@, name) + " -p '#{pane_width} #{pane_height}'"@
}

/// The command that succeeds when a client is attached to session `name`.
pub open spec fn attached_line(name: Seq<char>) -> Seq<char> {
    tmux_target("list-clients"@, name) + " 2>/dev/null | grep -q ."@
}

/// The local command that logs in to `client`'s host with a terminal and attaches to
/// session `name` there.
pub open spec fn local_attach_line(client: SshClientView, name: Seq<char>) -> Seq<char> {
    "ssh -t "@ + client.user + "@"@ + client.host + " -p "@ + decimal(client.port as nat) + " '"@
        + attach_line(name) + "'"@
}

/// The fallback width of a pane.
pub open spec fn default_width() -> u16 {
    80
}

/// The fallback height of a pane.
pub open spec fn default_height() -> u16 {
    24
}

/// The pane size that the output of `tmux display-message -p '#{pane_width} #{pane_height}'`
/// states: its first two words as numbers, each replaced by its fallback when it is not a
/// `u16`; the fallbacks for both when there are fewer than two words.
pub open spec fn pane_size_of(out: Seq<char>) -> (u16, u16) {
    let ws = words(out);
    if ws.len() >= 2 {
        (
            parse_u16_spec(ws[0]).unwrap_or(default_width()),
            parse_u16_spec(ws[1]).unwrap_or(default_height()),
        )
    } else {
        (default_width(), default_height())
    }
}

/// Law: the size that tmux prints for a pane (`<width> <height>` and a line feed) is read
/// back as that size.
pub proof fn lemma_pane_size_read_back(width: u16, height: u16)
    ensures
        pane_size_of(decimal(width as nat) + seq![' '] + decimal(height as nat) + seq!['\n'])
            == (width, height),
{
    crate::text::lemma_words_of_pair(width as nat, height as nat);
    crate::text::lemma_parse_decimal(width);
    crate::text::lemma_parse_decimal(height);
}

fn push_target(r: &mut String, verb: &str, name: &str)
    ensures
        final(r)@ == old(r)@ + tmux_target(verb@, name@),
{
    let ghost start = r@;
    r.append("tmux ");
    r.append(verb);
    r.append(" -t '");
    r.append(name);
    r.append("'");
    assert(r@ =~= start + tmux_target(verb@, name@));
}

impl<'a> RemoteTmuxSession<'a> {
    /// The session called `session_name` on `client`'s host, with no pane chosen.
    pub fn new(client: &'a SshClient, session_name: &str) -> (r: Self)
        ensures
            r@ == (RemoteSessionView { client: client@, session_name: session_name@, pane_id: None }),
    {
        RemoteTmuxSession { client, session_name: to_owned(session_name), pane_id: None }
    }

    /// The client that reaches the session's host.
    pub fn client(&self) -> (r: &'a SshClient)
        ensures
            r@ == self@.client,
    {
        self.client
    }

    /// The session's name.
    pub fn session_name(&self) -> (r: &str)
        ensures
            r@ == self@.session_name,
    {
        self.session_name.as_str()
    }

    /// The chosen pane: none, since no operation on a session chooses one.
    pub fn pane_id(&self) -> (r: Option<&str>)
        ensures
            r is None,
            self@.pane_id is None,
    {
        proof {
            use_type_invariant(self);
        }
        match &self.pane_id {
            Some(p) => Some(p.as_str()),
            None => None,
        }
    }

    /// `arg` as one single-quoted shell word.
    pub fn escape_shell_arg(&self, arg: &str) -> (r: String)
        ensures
            r@ == single_quoted(arg@),
    {
        shell_quote(arg)
    }

    /// The command that starts the session in `working_dir` and types `command` into it.
    pub fn create_command(&self, working_dir: &str, command: &str) -> (r: String)
        ensures
            r@ == create_line(self@.session_name, working_dir@, command@),
    {
        let n = self.session_name.as_str();
        let mut r = to_owned("tmux new-session -d -s '");
        r.append(n);
        r.append("' -c ");
        let d = self.escape_shell_arg(working_dir);
        r.append(d.as_str());
        r.append(" && ");
        push_target(&mut r, "send-keys", n);
        r.append(" ");
        let c = self.escape_shell_arg(command);
        r.append(c.as_str());
        r.append(" Enter");
        r
    }

    /// The outcome of `create_command`: `Ok` when the command succeeded.
    pub fn create(&self, run: Result<CommandOutput, String>) -> (r: Result<(), GroveError>)
        ensures
            r == unit_result(run),
    {
        match self.client.execute(run) {
            Ok(_) => Ok(()),
            Err(e) => Err(e),
        }
    }

    /// The command that starts the session in `working_dir` with a `width` x `height` window
    /// and types `command` into it.
    pub fn create_with_dimensions_command(
        &self,
        working_dir: &str,
        command: &str,
        width: u16,
        height: u16,
    ) -> (r: String)
        ensures
            r@ == create_sized_line(self@.session_name, working_dir@, command@, width, height),
    {
        let n = self.session_name.as_str();
        let mut r = to_owned("tmux new-session -d -s '");
        r.append(n);
        r.append("' -x ");
        push_decimal(&mut r, width as u64);
        r.append(" -y ");
        push_decimal(&mut r, height as u64);
        r.append(" -c ");
        let d = self.escape_shell_arg(working_dir);
        r.append(d.as_str());
        r.append(" && ");
        push_target(&mut r, "send-keys", n);
        r.append(" ");
        let c = self.escape_shell_arg(command);
        r.append(c.as_str());
        r.append(" Enter");
        r
    }

    /// The outcome of `create_with_dimensions_command`: `Ok` when the command succeeded.
    pub fn create_with_dimensions(&self, run: Result<CommandOutput, String>) -> (r: Result<(), GroveError>)
        ensures
            r == unit_result(run),
    {
        match self.client.execute(run) {
            Ok(_) => Ok(()),
            Err(e) => Err(e),
        }
    }

    /// The command that asks tmux whether the session exists.
    pub fn exists_command(&self) -> (r: String)
        ensures
            r@ == exists_line(self@.session_name),
    {
        let mut r = String::new();
        push_target(&mut r, "has-session", self.session_name.as_str());
        r.append(" 2>/dev/null");
        assert(r@ =~= tmux_target("has-session"@, self@.session_name) + " 2>/dev/null"@);
        r
    }

    /// Whether the session exists, from what `exists_command` gave: whether it succeeded.
    pub fn session_exists(&self, run: Result<CommandOutput, String>) -> (r: bool)
        ensures
            r == exec_result(run) is Ok,
    {
        self.client.execute(run).is_ok()
    }

    /// The command that prints the last `lines` lines of the pane, with escapes, joined.
    pub fn capture_pane_command(&self, lines: usize) -> (r: String)
        ensures
            r@ == capture_line(self@.session_name, lines),
    {
        let mut r = String::new();
        push_target(&mut r, "capture-pane", self.session_name.as_str());
        r.append(" -p -e -J -S -");
        push_decimal(&mut r, lines as u64);
        assert(r@ =~= tmux_target("capture-pane"@, self@.session_name) + " -p -e -J -S -"@
            + decimal(lines as nat));
        r
    }

    /// The pane's contents, from what `capture_pane_command` gave: its standard output,
    /// unless the command failed and wrote an error other than "no current window".
    pub fn capture_pane(&self, run: Result<CommandOutput, String>) -> (r: Result<String, GroveError>)
        ensures
            match run {
                Err(m) => r == Err::<String, GroveError>(GroveError::Ssh(m)),
                Ok(o) => if o.exit_code != 0 && o.stderr@.len() > 0 && !has_substring(
                    o.stderr@,
                    "no current window"@,
                ) {
                    r == Err::<String, GroveError>(GroveError::CaptureFailed { stderr: o.stderr })
                } else {
                    r matches Ok(s) && s@ == o.stdout@
                },
            },
    {
        let output = match self.client.capture_output(run) {
            Ok(o) => o,
            Err(e) => return Err(e),
        };
        let empty = output.stderr.as_str().is_empty();
        if !output.success() && !empty && !contains(output.stderr.as_str(), "no current window") {
            return Err(GroveError::CaptureFailed { stderr: output.stderr });
        }
        Ok(output.stdout)
    }

    /// The command that types `keys` literally, without a key press after them.
    pub fn send_keys_raw_command(&self, keys: &str) -> (r: String)
        ensures
            r@ == send_raw_line(self@.session_name, keys@),
    {
        let mut r = String::new();
        push_target(&mut r, "send-keys", self.session_name.as_str());
        r.append(" -l ");
        let k = self.escape_shell_arg(keys);
        r.append(k.as_str());
        assert(r@ =~= tmux_target("send-keys"@, self@.session_name) + " -l "@ + single_quoted(
            keys@,
        ));
        r
    }

    /// The command that sends the interrupt key (Ctrl-C) to the session, as a key press
    /// rather than as typed letters.
    pub fn interrupt_command(&self) -> (r: String)
        ensures
            r@ == interrupt_line(self@.session_name),
    {
        let mut r = String::new();
        push_target(&mut r, "send-keys", self.session_name.as_str());
        r.append(" C-c");
        assert(r@ =~= tmux_target("send-keys"@, self@.session_name) + " C-c"@);
        r
    }

    /// The outcome of `send_keys_raw_command`: `Ok` when the command succeeded.
    pub fn send_keys_raw(&self, run: Result<CommandOutput, String>) -> (r: Result<(), GroveError>)
        ensures
            r == unit_result(run),
    {
        match self.client.execute(run) {
            Ok(_) => Ok(()),
            Err(e) => Err(e),
        }
    }

    /// The command that types `keys` and then presses Enter.
    pub fn send_keys_command(&self, keys: &str) -> (r: String)
        ensures
            r@ == send_keys_line(self@.session_name, keys@),
    {
        let n = self.session_name.as_str();
        let mut r = String::new();
        push_target(&mut r, "send-keys", n);
        r.append(" ");
        let k = self.escape_shell_arg(keys);
        r.append(k.as_str());
        r.append(" && ");
        push_target(&mut r, "send-keys", n);
        r.append(" Enter");
        assert(r@ =~= tmux_target("send-keys"@, self@.session_name) + " "@ + single_quoted(keys@)
            + " && "@ + tmux_target("send-keys"@, self@.session_name) + " Enter"@);
        r
    }

    /// The outcome of `send_keys_command`: `Ok` when the command succeeded.
    pub fn send_keys(&self, run: Result<CommandOutput, String>) -> (r: Result<(), GroveError>)
        ensures
            r == unit_result(run),
    {
        match self.client.execute(run) {
            Ok(_) => Ok(()),
            Err(e) => Err(e),
        }
    }

    /// The command that puts `text` in a tmux buffer and pastes it into the session.
    pub fn send_text_command(&self, text: &str) -> (r: String)
        ensures
            r@ == send_text_line(self@.session_name, text@),
    {
        let n = self.session_name.as_str();
        let mut r = String::new();
        push_target(&mut r, "set-buffer", n);
        r.append(" ");
        let t = self.escape_shell_arg(text);
        r.append(t.as_str());
        r.append(" && ");
        push_target(&mut r, "paste-buffer", n);
        assert(r@ =~= tmux_target("set-buffer"@, self@.session_name) + " "@ + single_quoted(text@)
            + " && "@ + tmux_target("paste-buffer"@, self@.session_name));
        r
    }

    /// The outcome of `send_text_command`: `Ok` when the command succeeded.
    pub fn send_text(&self, run: Result<CommandOutput, String>) -> (r: Result<(), GroveError>)
        ensures
            r == unit_result(run),
    {
        match self.client.execute(run) {
            Ok(_) => Ok(()),
            Err(e) => Err(e),
        }
    }

    /// The command that ends the session; it succeeds also when there is no such session.
    pub fn kill_command(&self) -> (r: String)
        ensures
            r@ == kill_line(self@.session_name),
    {
        let mut r = String::new();
        push_target(&mut r, "kill-session", self.session_name.as_str());
        r.append(" 2>/dev/null || true");
        assert(r@ =~= tmux_target("kill-session"@, self@.session_name) + " 2>/dev/null || true"@);
        r
    }

    /// The outcome of `kill_command`: `Ok` when the command succeeded.
    pub fn kill(&self, run: Result<CommandOutput, String>) -> (r: Result<(), GroveError>)
        ensures
            r == unit_result(run),
    {
        match self.client.execute(run) {
            Ok(_) => Ok(()),
            Err(e) => Err(e),
        }
    }

    /// The command that prints the command running in the pane.
    pub fn pane_current_command_command(&self) -> (r: String)
        ensures
            r@ == current_command_line(self@.session_name),
    {
        let mut r = String::new();
        push_target(&mut r, "display-message", self.session_name.as_str());
        r.append(" -p '#{pane_current_command}'");
        assert(r@ =~= tmux_target("display-message"@, self@.session_name)
            + " -p '#{pane_current_command}'"@);
        r
    }

    /// The command running in the pane, from what `pane_current_command_command` gave: its
    /// output without surrounding white space, when the command succeeded and that is not
    /// empty.
    pub fn pane_current_command(&self, run: Result<CommandOutput, String>) -> (r: Option<String>)
        ensures
            match exec_result(run) {
                Ok(out) => if trimmed(out).len() > 0 {
                    r matches Some(s) && s@ == trimmed(out)
                } else {
                    r is None
                },
                Err(_) => r is None,
            },
    {
        match self.client.execute(run) {
            Ok(out) => {
                let t = trim(out.as_str());
                if t.as_str().is_empty() {
                    None
                } else {
                    Some(t)
                }
            },
            Err(_) => None,
        }
    }

    /// The command that prints the pane's width and height.
    pub fn pane_size_command(&self) -> (r: String)
        ensures
            r@ == pane_size_line(self@.session_name),
    {
        let mut r = String::new();
        push_target(&mut r, "display-message", self.session_name.as_str());
        r.append(" -p '#{pane_width} #{pane_height}'");
        assert(r@ =~= tmux_target("display-message"@, self@.session_name)
            + " -p '#{pane_width} #{pane_height}'"@);
        r
    }

    /// The pane's `(width, height)`, from what `pane_size_command` gave.
    pub fn pane_size(&self, run: Result<CommandOutput, String>) -> (r: Result<(u16, u16), GroveError>)
        ensures
            match exec_result(run) {
                Ok(out) => r == Ok::<(u16, u16), GroveError>(pane_size_of(out)),
                Err(e) => r == Err::<(u16, u16), GroveError>(e),
            },
    {
        let output = match self.client.execute(run) {
            Ok(o) => o,
            Err(e) => return Err(e),
        };
        let parts = split_whitespace(output.as_str());
        if parts.len() >= 2 {
            let width: u16 = match parse_u16(parts[0].as_str()) {
                Some(w) => w,
                None => 80,
            };
            let height: u16 = match parse_u16(parts[1].as_str()) {
                Some(h) => h,
                None => 24,
            };
            Ok((width, height))
        } else {
            Ok((80, 24))
        }
    }

    /// The command that succeeds when a client is attached to the session.
    pub fn is_attached_command(&self) -> (r: String)
        ensures
            r@ == attached_line(self@.session_name),
    {
        let mut r = String::new();
        push_target(&mut r, "list-clients", self.session_name.as_str());
        r.append(" 2>/dev/null | grep -q .");
        assert(r@ =~= tmux_target("list-clients"@, self@.session_name)
            + " 2>/dev/null | grep -q ."@);
        r
    }

    /// Whether a client is attached, from what `is_attached_command` gave: whether it
    /// succeeded.
    pub fn is_attached(&self, run: Result<CommandOutput, String>) -> (r: bool)
        ensures
            r == exec_result(run) is Ok,
    {
        self.client.execute(run).is_ok()
    }

    /// The tmux command that attaches to the session in control mode.
    pub fn attach_command(&self) -> (r: String)
        ensures
            r@ == attach_line(self@.session_name),
    {
        let mut r = to_owned("tmux -CC attach-session -t '");
        r.append(self.session_name.as_str());
        r.append("'");
        r
    }

    /// The local command that logs in to the host with a terminal and attaches there.
    pub fn local_attach_command(&self) -> (r: String)
        ensures
            r@ == local_attach_line(self@.client, self@.session_name),
    {
        let mut r = to_owned("ssh -t ");
        r.append(self.client.user());
        r.append("@");
        r.append(self.client.host());
        r.append(" -p ");
        push_decimal(&mut r, self.client.port() as u64);
        r.append(" '");
        let a = self.attach_command();
        r.append(a.as_str());
        r.append("'");
        r
    }

    /// The verdict on running `local_attach_command` locally: `status` is whether the
    /// process exited successfully, or why it could not be run.
    pub fn attach(&self, status: Result<bool, String>) -> (r: Result<(), GroveError>)
        ensures
            match status {
                Err(m) => r == Err::<(), GroveError>(
                    GroveError::Failed { context: Some(FailedStep::RunAttach), cause: m },
                ),
                Ok(true) => r == Ok::<(), GroveError>(()),
                Ok(false) => r == Err::<(), GroveError>(GroveError::AttachFailed),
            },
    {
        match status {
            Err(m) => Err(GroveError::Failed { context: Some(FailedStep::RunAttach), cause: m }),
            Ok(true) => Ok(()),
            Ok(false) => Err(GroveError::AttachFailed),
        }
    }
}

/// The command that lists the names of the remote sessions.
pub fn remote_list_sessions_command() -> (r: &'static str)
    ensures
        r@ == "tmux list-sessions -F '#{session_name}' 2>/dev/null || true"@,
{
    "tmux list-sessions -F '#{session_name}' 2>/dev/null || true"
}

/// The grove sessions on the host, from what `remote_list_sessions_command` gave: the lines
/// of its output that begin with `grove-`, in order.
pub fn remote_list_sessions(client: &SshClient, run: Result<CommandOutput, String>) -> (r: Result<
    Vec<String>,
    GroveError,
>)
    ensures
        match exec_result(run) {
            Ok(out) => r matches Ok(v) && v.len() == lines(out).filter(
                |l: Seq<char>| has_prefix(l, "grove-"@),
            ).len() && forall|k: int|
                0 <= k < v.len() ==> #[trigger] v[k]@ == lines(out).filter(
                    |l: Seq<char>| has_prefix(l, "grove-"@),
                )[k],
            Err(e) => r == Err::<Vec<String>, GroveError>(e),
        },
{
    let output = match client.execute(run) {
        Ok(o) => o,
        Err(e) => return Err(e),
    };
    Ok(lines_with_prefix(output.as_str(), "grove-"))
}

/// The command that asks the host for its tmux version.
pub fn tmux_version_command() -> (r: &'static str)
    ensures
        r@ == "tmux -V 2>/dev/null || echo 'not found'"@,
{
    "tmux -V 2>/dev/null || echo 'not found'"
}

/// Whether tmux runs on the host, from what `tmux_version_command` gave: whether it
/// exited with 0 and printed something other than white space.
pub fn is_tmux_available_on_remote(client: &SshClient, run: Result<CommandOutput, String>) -> (r: Result<bool, GroveError>)
    ensures
        match run {
            Err(m) => r == Err::<bool, GroveError>(GroveError::Ssh(m)),
            Ok(o) => r == Ok::<bool, GroveError>(o.exit_code == 0 && trimmed(o.stdout@).len() > 0),
        },
{
    let (output, exit_code) = match client.execute_with_exit_code(run) {
        Ok(p) => p,
        Err(e) => return Err(e),
    };
    let t = trim(output.as_str());
    Ok(exit_code == 0 && !t.as_str().is_empty())
}

} // verus!
