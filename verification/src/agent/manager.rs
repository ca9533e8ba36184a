//! The lifecycle of agents. Each operation is a job: it asks its caller to carry out one
//! action at a time (git, tmux, SSH, loading the configuration) and decides from each reply
//! what comes next, until it is done.
use vstd::prelude::*;

use crate::agent::{
    hyphenated_id, hyphenated_uuid, is_v4, new_agent_id, session_name_for, Agent, AgentView,
};
use crate::config::{first_named, remote_worktree, RemoteHost, SshConfig};
use crate::error::{FailedStep, GroveError};
use crate::ssh::remote::{create_line, interrupt_line, unit_result};
use crate::ssh::{exec_result, host_client, RemoteTmuxSession, SshClient, SshClientView};
use crate::text::{has_prefix, lines, same_text, to_owned};
use crate::tmux::{
    done_reply, exists_reply, list_grove_sessions, reported, session_task, text_reply, SessionReply, SessionTask,
    SessionTaskView, TmuxHandle, TmuxOp, TmuxOpView, TmuxSession,
};

verus! {

/// Creates, drives and removes agents for one repository.
#[derive(Debug)]
pub struct AgentManager {
    /// The repository that agents' worktrees are made from.
    pub repo_path: String,
    /// The directory under which local worktrees are made.
    pub worktree_base: String,
}

/// Where an agent's session is: here, or on a remote host.
#[derive(Debug)]
pub enum Place {
    Local { session: String },
    Remote { client: SshClient, session: String },
}

/// `Place` as plain values.
pub enum PlaceView {
    Local { session: Seq<char> },
    Remote { client: SshClientView, session: Seq<char> },
}

impl View for Place {
    type V = PlaceView;

    open spec fn view(&self) -> PlaceView {
        match self {
            Place::Local { session } => PlaceView::Local { session: session@ },
            Place::Remote { client, session } => PlaceView::Remote {
                client: client@,
                session: session@,
            },
        }
    }
}

/// Whether the session is on this machine.
pub open spec fn place_local(p: PlaceView) -> bool {
    p is Local
}

/// The session's name.
pub open spec fn place_session(p: PlaceView) -> Seq<char> {
    match p {
        PlaceView::Local { session } => session,
        PlaceView::Remote { session, .. } => session,
    }
}

/// The client that reaches a remote session's host.
pub open spec fn place_client(p: PlaceView) -> SshClientView {
    match p {
        PlaceView::Local { .. } => arbitrary(),
        PlaceView::Remote { client, .. } => client,
    }
}

/// The task that carries out `op` on the session at `p`.
pub open spec fn place_task(p: PlaceView, op: TmuxOpView) -> SessionTaskView {
    session_task(place_local(p), place_client(p), place_session(p), op)
}

impl Place {
    /// The task that carries out `op` on the session.
    pub fn task(&self, op: TmuxOp) -> (r: SessionTask)
        ensures
            r@ == place_task(self@, op@),
    {
        match self {
            Place::Local { session } => {
                let h = TmuxHandle::Local(TmuxSession::new(session.as_str()));
                h.task(op)
            },
            Place::Remote { client, session } => {
                let h = TmuxHandle::Remote(RemoteTmuxSession::new(client, session.as_str()));
                h.task(op)
            },
        }
    }

    /// Whether the session exists, from a reply.
    pub fn read_exists(&self, reply: SessionReply) -> (r: Option<bool>)
        ensures
            r == exists_reply(place_local(self@), reply),
    {
        match self {
            Place::Local { session } => TmuxHandle::Local(TmuxSession::new(session.as_str())).read_exists(reply),
            Place::Remote { client, session } => TmuxHandle::Remote(
                RemoteTmuxSession::new(client, session.as_str()),
            ).read_exists(reply),
        }
    }

    /// The outcome of an operation that gives nothing back, from a reply.
    pub fn read_done(&self, reply: SessionReply) -> (r: Option<Result<(), GroveError>>)
        ensures
            r == done_reply(place_local(self@), reply),
    {
        match self {
            Place::Local { session } => TmuxHandle::Local(TmuxSession::new(session.as_str())).read_done(reply),
            Place::Remote { client, session } => TmuxHandle::Remote(
                RemoteTmuxSession::new(client, session.as_str()),
            ).read_done(reply),
        }
    }

    /// The pane's contents, from a reply.
    pub fn read_text(&self, reply: SessionReply) -> (r: Option<Result<String, GroveError>>)
        ensures
            match (r, text_reply(place_local(self@), reply)) {
                (None, None) => true,
                (Some(Ok(t)), Some(Ok(u))) => t@ == u,
                (Some(Err(e)), Some(Err(f))) => e == f,
                _ => false,
            },
    {
        match self {
            Place::Local { session } => TmuxHandle::Local(TmuxSession::new(session.as_str())).read_text(reply),
            Place::Remote { client, session } => TmuxHandle::Remote(
                RemoteTmuxSession::new(client, session.as_str()),
            ).read_text(reply),
        }
    }
}

/// Work that a job asks its caller to carry out, and the reply it expects.
#[derive(Debug)]
pub enum Action {
    /// Make a worktree of `repo_path` for `branch` under `worktree_base`; reply with
    /// `Reply::Path`: the new worktree's path, or why it failed.
    CreateWorktree { repo_path: String, worktree_base: String, branch: String },
    /// Link each of `links` from the repository into the worktree at `worktree_path`;
    /// reply with `Reply::Finished`.
    CreateSymlinks {
        repo_path: String,
        worktree_base: String,
        worktree_path: String,
        links: Vec<String>,
    },
    /// Tell whether `path` exists; reply with `Reply::PathExists`.
    PathExists { path: String },
    /// Remove the worktree at `path`; reply with `Reply::Finished`.
    RemoveWorktree { repo_path: String, worktree_base: String, path: String },
    /// Load the configuration; reply with `Reply::Config`.
    LoadConfig,
    /// Carry out a session task; reply with `Reply::Session`.
    Session(SessionTask),
    /// Run `program` with `args` here; reply with `Reply::Finished`.
    Process { program: String, args: Vec<String> },
    /// Wait `millis` milliseconds; reply with `Reply::Finished`.
    Sleep { millis: u64 },
}

/// The views of a list of strings.
pub open spec fn strings_view(v: Vec<String>) -> Seq<Seq<char>> {
    v@.map_values(|s: String| s@)
}

/// `Action` as plain values.
pub enum ActionView {
    CreateWorktree { repo_path: Seq<char>, worktree_base: Seq<char>, branch: Seq<char> },
    CreateSymlinks {
        repo_path: Seq<char>,
        worktree_base: Seq<char>,
        worktree_path: Seq<char>,
        links: Seq<Seq<char>>,
    },
    PathExists { path: Seq<char> },
    RemoveWorktree { repo_path: Seq<char>, worktree_base: Seq<char>, path: Seq<char> },
    LoadConfig,
    Session(SessionTaskView),
    Process { program: Seq<char>, args: Seq<Seq<char>> },
    Sleep { millis: u64 },
}

impl View for Action {
    type V = ActionView;

    open spec fn view(&self) -> ActionView {
        match self {
            Action::CreateWorktree { repo_path, worktree_base, branch } => ActionView::CreateWorktree {
                repo_path: repo_path@,
                worktree_base: worktree_base@,
                branch: branch@,
            },
            Action::CreateSymlinks { repo_path, worktree_base, worktree_path, links } =>
                ActionView::CreateSymlinks {
                repo_path: repo_path@,
                worktree_base: worktree_base@,
                worktree_path: worktree_path@,
                links: strings_view(*links),
            },
            Action::PathExists { path } => ActionView::PathExists { path: path@ },
            Action::RemoveWorktree { repo_path, worktree_base, path } => ActionView::RemoveWorktree {
                repo_path: repo_path@,
                worktree_base: worktree_base@,
                path: path@,
            },
            Action::LoadConfig => ActionView::LoadConfig,
            Action::Session(t) => ActionView::Session(t@),
            Action::Process { program, args } => ActionView::Process {
                program: program@,
                args: strings_view(*args),
            },
            Action::Sleep { millis } => ActionView::Sleep { millis: *millis },
        }
    }
}

/// What the caller reports after carrying out an action.
#[derive(Debug)]
pub enum Reply {
    /// The worktree was made at this path, or could not be made for the reason given.
    Path(Result<String, String>),
    /// The action finished, or failed for the reason given.
    Finished(Result<(), String>),
    /// Whether the path exists.
    PathExists(bool),
    /// The configuration, or why it could not be loaded.
    Config(Result<SshConfig, String>),
    /// What the session task gave back.
    Session(SessionReply),
}

/// The next step of a job: the stage it is now in and the action it asks for, or its
/// result.
#[derive(Debug)]
pub enum Step<S, T> {
    Next(S, Action),
    Done(Result<T, GroveError>),
}

/// `Step` as plain values.
pub enum StepView<S, T> {
    Next(S, ActionView),
    Done(Result<T, GroveError>),
}

impl<S: View, T: View> View for Step<S, T> {
    type V = StepView<S::V, T::V>;

    open spec fn view(&self) -> StepView<S::V, T::V> {
        match self {
            Step::Next(s, a) => StepView::Next(s@, a@),
            Step::Done(Ok(t)) => StepView::Done(Ok(t@)),
            Step::Done(Err(e)) => StepView::Done(Err(*e)),
        }
    }
}

/// Where the configuration says the session `session` on the host named `host` is: an
/// error when the configuration could not be loaded or names no such host.
pub open spec fn config_place(config: Result<SshConfig, String>, host: String, session: Seq<char>) -> Result<PlaceView, GroveError> {
    match config {
        Err(m) => Err(reported(m)),
        Ok(cfg) => match first_named(cfg.hosts@, host@) {
            None => Err(GroveError::UnknownHost { name: host }),
            Some(h) => Ok(PlaceView::Remote { client: host_client(h), session }),
        },
    }
}

/// Where the configuration says a remote session is.
pub fn locate_remote(config: Result<SshConfig, String>, host: &String, session: &String) -> (r: Result<Place, GroveError>)
    ensures
        match (r, config_place(config, *host, session@)) {
            (Ok(p), Ok(q)) => p@ == q,
            (Err(e), Err(f)) => e == f,
            _ => false,
        },
{
    match config {
        Err(m) => Err(GroveError::Failed { context: None, cause: m }),
        Ok(cfg) => match cfg.get_host(host.as_str()) {
            None => Err(GroveError::UnknownHost { name: host.clone() }),
            Some(h) => match SshClient::from_config(h) {
                Ok(client) => Ok(Place::Remote { client, session: session.clone() }),
                Err(e) => Err(e),
            },
        },
    }
}

/// The local place of an agent's session.
pub open spec fn local_place(agent: Agent) -> PlaceView {
    PlaceView::Local { session: agent.tmux_session@ }
}


/// The stages of sending input to an agent.
#[derive(Debug)]
pub enum SendStage {
    /// Waiting for the configuration, to find the host named `host`.
    Config { host: String },
    /// Waiting to learn whether the session exists.
    Check { place: Place },
    /// Waiting for the keys to be sent.
    Send { place: Place },
}

/// `SendStage` as plain values.
pub enum SendStageView {
    Config { host: Seq<char> },
    Check { place: PlaceView },
    Send { place: PlaceView },
}

impl View for SendStage {
    type V = SendStageView;

    open spec fn view(&self) -> SendStageView {
        match self {
            SendStage::Config { host } => SendStageView::Config { host: host@ },
            SendStage::Check { place } => SendStageView::Check { place: place@ },
            SendStage::Send { place } => SendStageView::Send { place: place@ },
        }
    }
}

/// The action that a stage of sending `input` waits on.
pub open spec fn send_pending(input: Seq<char>, stage: SendStageView) -> ActionView {
    match stage {
        SendStageView::Config { .. } => ActionView::LoadConfig,
        SendStageView::Check { place } => ActionView::Session(place_task(place, TmuxOpView::Exists)),
        SendStageView::Send { place } => ActionView::Session(
            place_task(place, TmuxOpView::SendKeys { keys: input }),
        ),
    }
}

/// How sending input to `agent` starts: a remote agent's host is looked up in the
/// configuration; a local agent's session is checked at once.
pub open spec fn send_start(agent: Agent) -> StepView<SendStageView, ()> {
    match agent.remote_host {
        Some(h) => StepView::Next(SendStageView::Config { host: h@ }, ActionView::LoadConfig),
        None => StepView::Next(
            SendStageView::Check { place: local_place(agent) },
            ActionView::Session(place_task(local_place(agent), TmuxOpView::Exists)),
        ),
    }
}

/// The step after `stage` when `reply` comes: the keys are typed (with Enter) only into a
/// session found to exist; a missing session is an error; a reply that does not answer the
/// pending action leaves the job where it is.
pub open spec fn send_next(agent: Agent, input: Seq<char>, stage: SendStage, reply: Reply) -> StepView<SendStageView, ()> {
    let stay = StepView::Next(stage@, send_pending(input, stage@));
    match stage {
        SendStage::Config { host } => match reply {
            Reply::Config(c) => match config_place(c, host, agent.tmux_session@) {
                Err(e) => StepView::Done(Err(e)),
                Ok(p) => StepView::Next(
                    SendStageView::Check { place: p },
                    send_pending(input, SendStageView::Check { place: p }),
                ),
            },
            _ => stay,
        },
        SendStage::Check { place } => match reply {
            Reply::Session(r) => match exists_reply(place_local(place@), r) {
                Some(true) => StepView::Next(
                    SendStageView::Send { place: place@ },
                    send_pending(input, SendStageView::Send { place: place@ }),
                ),
                Some(false) => StepView::Done(
                    Err(
                        if place_local(place@) {
                            GroveError::SessionMissing
                        } else {
                            GroveError::RemoteSessionMissing
                        },
                    ),
                ),
                None => stay,
            },
            _ => stay,
        },
        SendStage::Send { place } => match reply {
            Reply::Session(r) => match done_reply(place_local(place@), r) {
                Some(res) => StepView::Done(res),
                None => stay,
            },
            _ => stay,
        },
    }
}

fn send_pending_action(input: &str, stage: &SendStage) -> (a: Action)
    ensures
        a@ == send_pending(input@, stage@),
{
    match stage {
        SendStage::Config { .. } => Action::LoadConfig,
        SendStage::Check { place } => Action::Session(place.task(TmuxOp::Exists)),
        SendStage::Send { place } => Action::Session(
            place.task(TmuxOp::SendKeys { keys: to_owned(input) }),
        ),
    }
}

fn local_place_of(agent: &Agent) -> (p: Place)
    ensures
        p@ == local_place(*agent),
{
    Place::Local { session: agent.tmux_session.clone() }
}

impl AgentManager {
    /// A manager for the repository at `repo_path`, making worktrees under `worktree_base`.
    pub fn new(repo_path: &str, worktree_base: &str) -> (r: Self)
        ensures
            r.repo_path@ == repo_path@,
            r.worktree_base@ == worktree_base@,
    {
        AgentManager { repo_path: to_owned(repo_path), worktree_base: to_owned(worktree_base) }
    }

    /// Starts sending `input` to the agent's session.
    pub fn send_input(&self, agent: &Agent, input: &str) -> (r: Step<SendStage, ()>)
        ensures
            r@ == send_start(*agent),
    {
        match &agent.remote_host {
            Some(h) => Step::Next(SendStage::Config { host: h.clone() }, Action::LoadConfig),
            None => {
                let place = local_place_of(agent);
                let a = Action::Session(place.task(TmuxOp::Exists));
                Step::Next(SendStage::Check { place }, a)
            },
        }
    }

    /// Continues sending `input` to the agent's session, from `stage`, with the reply to
    /// its pending action.
    pub fn resume_send_input(&self, agent: &Agent, input: &str, stage: SendStage, reply: Reply) -> (r: Step<SendStage, ()>)
        ensures
            r@ == send_next(*agent, input@, stage, reply),
    {
        let ghost old_stage = stage;
        match stage {
            SendStage::Config { host } => match reply {
                Reply::Config(c) => match locate_remote(c, &host, &agent.tmux_session) {
                    Err(e) => Step::Done(Err(e)),
                    Ok(place) => {
                        let a = Action::Session(place.task(TmuxOp::Exists));
                        Step::Next(SendStage::Check { place }, a)
                    },
                },
                _ => {
                    let st = SendStage::Config { host };
                    let a = send_pending_action(input, &st);
                    Step::Next(st, a)
                },
            },
            SendStage::Check { place } => {
                let seen = match reply {
                    Reply::Session(r) => place.read_exists(r),
                    _ => None,
                };
                match seen {
                    Some(true) => {
                        let a = Action::Session(
                            place.task(TmuxOp::SendKeys { keys: to_owned(input) }),
                        );
                        Step::Next(SendStage::Send { place }, a)
                    },
                    Some(false) => {
                        let local = match &place {
                            Place::Local { .. } => true,
                            Place::Remote { .. } => false,
                        };
                        if local {
                            Step::Done(Err(GroveError::SessionMissing))
                        } else {
                            Step::Done(Err(GroveError::RemoteSessionMissing))
                        }
                    },
                    None => {
                        let st = SendStage::Check { place };
                        let a = send_pending_action(input, &st);
                        Step::Next(st, a)
                    },
                }
            },
            SendStage::Send { place } => {
                let seen = match reply {
                    Reply::Session(r) => place.read_done(r),
                    _ => None,
                };
                match seen {
                    Some(res) => Step::Done(res),
                    None => {
                        let st = SendStage::Send { place };
                        let a = send_pending_action(input, &st);
                        Step::Next(st, a)
                    },
                }
            },
        }
    }
}


/// `e` reported under the name of the local step `step`, when it is a failure of the
/// caller's that has no step named yet.
pub open spec fn in_context(e: GroveError, step: FailedStep) -> GroveError {
    match e {
        GroveError::Failed { context: None, cause } => GroveError::Failed {
            context: Some(step),
            cause,
        },
        _ => e,
    }
}

fn with_context(e: GroveError, step: FailedStep) -> (r: GroveError)
    ensures
        r == in_context(e, step),
{
    match e {
        GroveError::Failed { context: None, cause } => GroveError::Failed {
            context: Some(step),
            cause,
        },
        other => other,
    }
}

fn is_local(place: &Place) -> (r: bool)
    ensures
        r == place_local(place@),
{
    match place {
        Place::Local { .. } => true,
        Place::Remote { .. } => false,
    }
}

// ---------------------------------------------------------------------------------------
// Capturing output

/// The stages of capturing an agent's output.
#[derive(Debug)]
pub enum CaptureStage {
    Config { host: String },
    Check { place: Place },
    Capture { place: Place },
}

/// `CaptureStage` as plain values.
pub enum CaptureStageView {
    Config { host: Seq<char> },
    Check { place: PlaceView },
    Capture { place: PlaceView },
}

impl View for CaptureStage {
    type V = CaptureStageView;

    open spec fn view(&self) -> CaptureStageView {
        match self {
            CaptureStage::Config { host } => CaptureStageView::Config { host: host@ },
            CaptureStage::Check { place } => CaptureStageView::Check { place: place@ },
            CaptureStage::Capture { place } => CaptureStageView::Capture { place: place@ },
        }
    }
}

/// The action that a stage of capturing `lines` lines waits on.
pub open spec fn capture_pending(lines: usize, stage: CaptureStageView) -> ActionView {
    match stage {
        CaptureStageView::Config { .. } => ActionView::LoadConfig,
        CaptureStageView::Check { place } => ActionView::Session(place_task(place, TmuxOpView::Exists)),
        CaptureStageView::Capture { place } => ActionView::Session(
            place_task(place, TmuxOpView::CapturePane { lines }),
        ),
    }
}

/// How capturing `agent`'s output starts.
pub open spec fn capture_start(agent: Agent) -> StepView<CaptureStageView, Seq<char>> {
    match agent.remote_host {
        Some(h) => StepView::Next(CaptureStageView::Config { host: h@ }, ActionView::LoadConfig),
        None => StepView::Next(
            CaptureStageView::Check { place: local_place(agent) },
            ActionView::Session(place_task(local_place(agent), TmuxOpView::Exists)),
        ),
    }
}

/// The step after `stage` when `reply` comes: a missing session has empty output; an
/// existing one is captured.
pub open spec fn capture_next(agent: Agent, lines: usize, stage: CaptureStage, reply: Reply) -> StepView<CaptureStageView, Seq<char>> {
    let stay = StepView::Next(stage@, capture_pending(lines, stage@));
    match stage {
        CaptureStage::Config { host } => match reply {
            Reply::Config(c) => match config_place(c, host, agent.tmux_session@) {
                Err(e) => StepView::Done(Err(e)),
                Ok(p) => StepView::Next(
                    CaptureStageView::Check { place: p },
                    capture_pending(lines, CaptureStageView::Check { place: p }),
                ),
            },
            _ => stay,
        },
        CaptureStage::Check { place } => match reply {
            Reply::Session(r) => match exists_reply(place_local(place@), r) {
                Some(true) => StepView::Next(
                    CaptureStageView::Capture { place: place@ },
                    capture_pending(lines, CaptureStageView::Capture { place: place@ }),
                ),
                Some(false) => StepView::Done(Ok(seq![])),
                None => stay,
            },
            _ => stay,
        },
        CaptureStage::Capture { place } => match reply {
            Reply::Session(r) => match text_reply(place_local(place@), r) {
                Some(res) => StepView::Done(res),
                None => stay,
            },
            _ => stay,
        },
    }
}

fn capture_pending_action(lines: usize, stage: &CaptureStage) -> (a: Action)
    ensures
        a@ == capture_pending(lines, stage@),
{
    match stage {
        CaptureStage::Config { .. } => Action::LoadConfig,
        CaptureStage::Check { place } => Action::Session(place.task(TmuxOp::Exists)),
        CaptureStage::Capture { place } => Action::Session(place.task(TmuxOp::CapturePane { lines })),
    }
}

// ---------------------------------------------------------------------------------------
// Whether the session is alive

/// The stages of checking whether an agent's session is alive.
#[derive(Debug)]
pub enum AliveStage {
    Config { host: String },
    Check { place: Place },
}

/// `AliveStage` as plain values.
pub enum AliveStageView {
    Config { host: Seq<char> },
    Check { place: PlaceView },
}

impl View for AliveStage {
    type V = AliveStageView;

    open spec fn view(&self) -> AliveStageView {
        match self {
            AliveStage::Config { host } => AliveStageView::Config { host: host@ },
            AliveStage::Check { place } => AliveStageView::Check { place: place@ },
        }
    }
}

/// The action that a stage of the check waits on.
pub open spec fn alive_pending(stage: AliveStageView) -> ActionView {
    match stage {
        AliveStageView::Config { .. } => ActionView::LoadConfig,
        AliveStageView::Check { place } => ActionView::Session(place_task(place, TmuxOpView::Exists)),
    }
}

/// How the check of `agent`'s session starts.
pub open spec fn alive_start(agent: Agent) -> StepView<AliveStageView, bool> {
    match agent.remote_host {
        Some(h) => StepView::Next(AliveStageView::Config { host: h@ }, ActionView::LoadConfig),
        None => StepView::Next(
            AliveStageView::Check { place: local_place(agent) },
            alive_pending(AliveStageView::Check { place: local_place(agent) }),
        ),
    }
}

/// The step after `stage` when `reply` comes: the session is alive when it exists; a host
/// that cannot be found makes it not alive, never an error.
pub open spec fn alive_next(agent: Agent, stage: AliveStage, reply: Reply) -> StepView<AliveStageView, bool> {
    let stay = StepView::Next(stage@, alive_pending(stage@));
    match stage {
        AliveStage::Config { host } => match reply {
            Reply::Config(c) => match config_place(c, host, agent.tmux_session@) {
                Err(_) => StepView::Done(Ok(false)),
                Ok(p) => StepView::Next(
                    AliveStageView::Check { place: p },
                    alive_pending(AliveStageView::Check { place: p }),
                ),
            },
            _ => stay,
        },
        AliveStage::Check { place } => match reply {
            Reply::Session(r) => match exists_reply(place_local(place@), r) {
                Some(b) => StepView::Done(Ok(b)),
                None => stay,
            },
            _ => stay,
        },
    }
}

fn alive_pending_action(stage: &AliveStage) -> (a: Action)
    ensures
        a@ == alive_pending(stage@),
{
    match stage {
        AliveStage::Config { .. } => Action::LoadConfig,
        AliveStage::Check { place } => Action::Session(place.task(TmuxOp::Exists)),
    }
}

// ---------------------------------------------------------------------------------------
// Attaching

/// The stages of attaching to an agent's session.
#[derive(Debug)]
pub enum AttachStage {
    Config { host: String },
    Check { place: Place },
    /// Waiting for the missing session to be made in `dir`.
    Create { place: Place, dir: String },
    Attach { place: Place },
}

/// `AttachStage` as plain values.
pub enum AttachStageView {
    Config { host: Seq<char> },
    Check { place: PlaceView },
    Create { place: PlaceView, dir: Seq<char> },
    Attach { place: PlaceView },
}

impl View for AttachStage {
    type V = AttachStageView;

    open spec fn view(&self) -> AttachStageView {
        match self {
            AttachStage::Config { host } => AttachStageView::Config { host: host@ },
            AttachStage::Check { place } => AttachStageView::Check { place: place@ },
            AttachStage::Create { place, dir } => AttachStageView::Create {
                place: place@,
                dir: dir@,
            },
            AttachStage::Attach { place } => AttachStageView::Attach { place: place@ },
        }
    }
}

/// The action that a stage of attaching waits on; a missing session is made running
/// `command`.
pub open spec fn attach_pending(command: Seq<char>, stage: AttachStageView) -> ActionView {
    match stage {
        AttachStageView::Config { .. } => ActionView::LoadConfig,
        AttachStageView::Check { place } => ActionView::Session(place_task(place, TmuxOpView::Exists)),
        AttachStageView::Create { place, dir } => ActionView::Session(
            place_task(place, TmuxOpView::Create { working_dir: dir, command }),
        ),
        AttachStageView::Attach { place } => ActionView::Session(place_task(place, TmuxOpView::Attach)),
    }
}

/// How attaching to `agent` starts.
pub open spec fn attach_start(agent: Agent) -> StepView<AttachStageView, ()> {
    match agent.remote_host {
        Some(h) => StepView::Next(AttachStageView::Config { host: h@ }, ActionView::LoadConfig),
        None => StepView::Next(
            AttachStageView::Check { place: local_place(agent) },
            ActionView::Session(place_task(local_place(agent), TmuxOpView::Exists)),
        ),
    }
}

/// The step after `stage` when `reply` comes: an existing session is attached to; a missing
/// one is first made again in the agent's worktree, running `command`.
pub open spec fn attach_next(agent: Agent, command: Seq<char>, stage: AttachStage, reply: Reply) -> StepView<AttachStageView, ()> {
    let stay = StepView::Next(stage@, attach_pending(command, stage@));
    match stage {
        AttachStage::Config { host } => match reply {
            Reply::Config(c) => match config_place(c, host, agent.tmux_session@) {
                Err(e) => StepView::Done(Err(e)),
                Ok(p) => StepView::Next(
                    AttachStageView::Check { place: p },
                    attach_pending(command, AttachStageView::Check { place: p }),
                ),
            },
            _ => stay,
        },
        AttachStage::Check { place } => match reply {
            Reply::Session(r) => match exists_reply(place_local(place@), r) {
                Some(true) => StepView::Next(
                    AttachStageView::Attach { place: place@ },
                    attach_pending(command, AttachStageView::Attach { place: place@ }),
                ),
                Some(false) => if place_local(place@) {
                    StepView::Next(
                        AttachStageView::Create { place: place@, dir: agent.worktree_path@ },
                        attach_pending(
                            command,
                            AttachStageView::Create { place: place@, dir: agent.worktree_path@ },
                        ),
                    )
                } else {
                    match agent.remote_worktree_path {
                        None => StepView::Done(Err(GroveError::MissingWorktreePath)),
                        Some(d) => StepView::Next(
                            AttachStageView::Create { place: place@, dir: d@ },
                            attach_pending(command, AttachStageView::Create { place: place@, dir: d@ }),
                        ),
                    }
                },
                None => stay,
            },
            _ => stay,
        },
        AttachStage::Create { place, dir } => match reply {
            Reply::Session(r) => match done_reply(place_local(place@), r) {
                Some(Ok(())) => StepView::Next(
                    AttachStageView::Attach { place: place@ },
                    attach_pending(command, AttachStageView::Attach { place: place@ }),
                ),
                Some(Err(e)) => StepView::Done(
                    Err(
                        if place_local(place@) {
                            in_context(e, FailedStep::CreateSession)
                        } else {
                            e
                        },
                    ),
                ),
                None => stay,
            },
            _ => stay,
        },
        AttachStage::Attach { place } => match reply {
            Reply::Session(r) => match done_reply(place_local(place@), r) {
                Some(res) => StepView::Done(res),
                None => stay,
            },
            _ => stay,
        },
    }
}

fn attach_pending_action(command: &str, stage: &AttachStage) -> (a: Action)
    ensures
        a@ == attach_pending(command@, stage@),
{
    match stage {
        AttachStage::Config { .. } => Action::LoadConfig,
        AttachStage::Check { place } => Action::Session(place.task(TmuxOp::Exists)),
        AttachStage::Create { place, dir } => Action::Session(
            place.task(
                TmuxOp::Create { working_dir: to_owned(dir.as_str()), command: to_owned(command) },
            ),
        ),
        AttachStage::Attach { place } => Action::Session(place.task(TmuxOp::Attach)),
    }
}


impl AgentManager {
    /// Starts capturing the last `lines` lines of the agent's pane.
    pub fn capture_output(&self, agent: &Agent, lines: usize) -> (r: Step<CaptureStage, String>)
        ensures
            r@ == capture_start(*agent),
    {
        match &agent.remote_host {
            Some(h) => Step::Next(CaptureStage::Config { host: h.clone() }, Action::LoadConfig),
            None => {
                let place = local_place_of(agent);
                let a = Action::Session(place.task(TmuxOp::Exists));
                Step::Next(CaptureStage::Check { place }, a)
            },
        }
    }

    /// Continues capturing `lines` lines of the agent's pane, from `stage`, with the reply
    /// to its pending action.
    pub fn resume_capture_output(&self, agent: &Agent, lines: usize, stage: CaptureStage, reply: Reply) -> (r: Step<CaptureStage, String>)
        ensures
            r@ == capture_next(*agent, lines, stage, reply),
    {
        match stage {
            CaptureStage::Config { host } => match reply {
                Reply::Config(c) => match locate_remote(c, &host, &agent.tmux_session) {
                    Err(e) => Step::Done(Err(e)),
                    Ok(place) => {
                        let a = Action::Session(place.task(TmuxOp::Exists));
                        Step::Next(CaptureStage::Check { place }, a)
                    },
                },
                _ => {
                    let st = CaptureStage::Config { host };
                    let a = capture_pending_action(lines, &st);
                    Step::Next(st, a)
                },
            },
            CaptureStage::Check { place } => {
                let seen = match reply {
                    Reply::Session(r) => place.read_exists(r),
                    _ => None,
                };
                match seen {
                    Some(true) => {
                        let a = Action::Session(place.task(TmuxOp::CapturePane { lines }));
                        Step::Next(CaptureStage::Capture { place }, a)
                    },
                    Some(false) => Step::Done(Ok(String::new())),
                    None => {
                        let st = CaptureStage::Check { place };
                        let a = capture_pending_action(lines, &st);
                        Step::Next(st, a)
                    },
                }
            },
            CaptureStage::Capture { place } => {
                let seen = match reply {
                    Reply::Session(r) => place.read_text(r),
                    _ => None,
                };
                match seen {
                    Some(res) => Step::Done(res),
                    None => {
                        let st = CaptureStage::Capture { place };
                        let a = capture_pending_action(lines, &st);
                        Step::Next(st, a)
                    },
                }
            },
        }
    }

    /// Starts reading the agent's recent output to tell its status: a capture of the last
    /// 50 lines of its pane.
    pub fn detect_status(&self, agent: &Agent) -> (r: Step<CaptureStage, String>)
        ensures
            r@ == capture_start(*agent),
    {
        self.capture_output(agent, 50)
    }

    /// Starts checking whether the agent's session is alive.
    pub fn is_session_alive(&self, agent: &Agent) -> (r: Step<AliveStage, bool>)
        ensures
            r@ == alive_start(*agent),
    {
        match &agent.remote_host {
            Some(h) => Step::Next(AliveStage::Config { host: h.clone() }, Action::LoadConfig),
            None => {
                let place = local_place_of(agent);
                let a = Action::Session(place.task(TmuxOp::Exists));
                Step::Next(AliveStage::Check { place }, a)
            },
        }
    }

    /// Continues checking whether the agent's session is alive, from `stage`, with the
    /// reply to its pending action.
    pub fn resume_is_session_alive(&self, agent: &Agent, stage: AliveStage, reply: Reply) -> (r: Step<AliveStage, bool>)
        ensures
            r@ == alive_next(*agent, stage, reply),
    {
        match stage {
            AliveStage::Config { host } => match reply {
                Reply::Config(c) => match locate_remote(c, &host, &agent.tmux_session) {
                    Err(_) => Step::Done(Ok(false)),
                    Ok(place) => {
                        let a = Action::Session(place.task(TmuxOp::Exists));
                        Step::Next(AliveStage::Check { place }, a)
                    },
                },
                _ => {
                    let st = AliveStage::Config { host };
                    let a = alive_pending_action(&st);
                    Step::Next(st, a)
                },
            },
            AliveStage::Check { place } => {
                let seen = match reply {
                    Reply::Session(r) => place.read_exists(r),
                    _ => None,
                };
                match seen {
                    Some(b) => Step::Done(Ok(b)),
                    None => {
                        let st = AliveStage::Check { place };
                        let a = alive_pending_action(&st);
                        Step::Next(st, a)
                    },
                }
            },
        }
    }

    /// Starts attaching to the agent's session; a missing session is made again, running
    /// `command`.
    pub fn attach_to_agent(&self, agent: &Agent, command: &str) -> (r: Step<AttachStage, ()>)
        ensures
            r@ == attach_start(*agent),
    {
        match &agent.remote_host {
            Some(h) => Step::Next(AttachStage::Config { host: h.clone() }, Action::LoadConfig),
            None => {
                let place = local_place_of(agent);
                let a = Action::Session(place.task(TmuxOp::Exists));
                Step::Next(AttachStage::Check { place }, a)
            },
        }
    }

    /// Continues attaching, from `stage`, with the reply to its pending action.
    pub fn resume_attach_to_agent(&self, agent: &Agent, command: &str, stage: AttachStage, reply: Reply) -> (r: Step<AttachStage, ()>)
        ensures
            r@ == attach_next(*agent, command@, stage, reply),
    {
        match stage {
            AttachStage::Config { host } => match reply {
                Reply::Config(c) => match locate_remote(c, &host, &agent.tmux_session) {
                    Err(e) => Step::Done(Err(e)),
                    Ok(place) => {
                        let a = Action::Session(place.task(TmuxOp::Exists));
                        Step::Next(AttachStage::Check { place }, a)
                    },
                },
                _ => {
                    let st = AttachStage::Config { host };
                    let a = attach_pending_action(command, &st);
                    Step::Next(st, a)
                },
            },
            AttachStage::Check { place } => {
                let seen = match reply {
                    Reply::Session(r) => place.read_exists(r),
                    _ => None,
                };
                match seen {
                    Some(true) => {
                        let a = Action::Session(place.task(TmuxOp::Attach));
                        Step::Next(AttachStage::Attach { place }, a)
                    },
                    Some(false) => {
                        let dir = if is_local(&place) {
                            agent.worktree_path.clone()
                        } else {
                            match &agent.remote_worktree_path {
                                None => return Step::Done(Err(GroveError::MissingWorktreePath)),
                                Some(d) => d.clone(),
                            }
                        };
                        let st = AttachStage::Create { place, dir };
                        let a = attach_pending_action(command, &st);
                        Step::Next(st, a)
                    },
                    None => {
                        let st = AttachStage::Check { place };
                        let a = attach_pending_action(command, &st);
                        Step::Next(st, a)
                    },
                }
            },
            AttachStage::Create { place, dir } => {
                let seen = match reply {
                    Reply::Session(r) => place.read_done(r),
                    _ => None,
                };
                match seen {
                    Some(Ok(())) => {
                        let a = Action::Session(place.task(TmuxOp::Attach));
                        Step::Next(AttachStage::Attach { place }, a)
                    },
                    Some(Err(e)) => if is_local(&place) {
                        Step::Done(Err(with_context(e, FailedStep::CreateSession)))
                    } else {
                        Step::Done(Err(e))
                    },
                    None => {
                        let st = AttachStage::Create { place, dir };
                        let a = attach_pending_action(command, &st);
                        Step::Next(st, a)
                    },
                }
            },
            AttachStage::Attach { place } => {
                let seen = match reply {
                    Reply::Session(r) => place.read_done(r),
                    _ => None,
                };
                match seen {
                    Some(res) => Step::Done(res),
                    None => {
                        let st = AttachStage::Attach { place };
                        let a = attach_pending_action(command, &st);
                        Step::Next(st, a)
                    },
                }
            },
        }
    }
}


// ---------------------------------------------------------------------------------------
// Restarting

/// The stages of restarting an agent's assistant.
#[derive(Debug)]
pub enum RestartStage {
    Config { host: String },
    /// Waiting to learn whether the session exists; `dir` is the agent's worktree.
    Check { place: Place, dir: String },
    Create { place: Place, dir: String },
    /// Waiting for the interrupt key (Ctrl-C) to reach the session.
    Interrupt { place: Place },
    /// Waiting out the pause after the interrupt key.
    Pause { place: Place },
    /// Waiting for the command to be typed again.
    Resend { place: Place },
}

/// `RestartStage` as plain values.
pub enum RestartStageView {
    Config { host: Seq<char> },
    Check { place: PlaceView, dir: Seq<char> },
    Create { place: PlaceView, dir: Seq<char> },
    Interrupt { place: PlaceView },
    Pause { place: PlaceView },
    Resend { place: PlaceView },
}

impl View for RestartStage {
    type V = RestartStageView;

    open spec fn view(&self) -> RestartStageView {
        match self {
            RestartStage::Config { host } => RestartStageView::Config { host: host@ },
            RestartStage::Check { place, dir } => RestartStageView::Check { place: place@, dir: dir@ },
            RestartStage::Create { place, dir } => RestartStageView::Create { place: place@, dir: dir@ },
            RestartStage::Interrupt { place } => RestartStageView::Interrupt { place: place@ },
            RestartStage::Pause { place } => RestartStageView::Pause { place: place@ },
            RestartStage::Resend { place } => RestartStageView::Resend { place: place@ },
        }
    }
}

/// How long the assistant is given to stop after the interrupt key, in milliseconds.
pub open spec fn restart_pause() -> u64 {
    100
}

/// The interrupt key (Ctrl-C) sent to the session at `p` with `tmux send-keys -t <session>
/// C-c`: run directly here, and over SSH on a remote host.
pub open spec fn interrupt_action(p: PlaceView) -> ActionView {
    if place_local(p) {
        ActionView::Process {
            program: "tmux"@,
            args: seq!["send-keys"@, "-t"@, place_session(p), "C-c"@],
        }
    } else {
        ActionView::Session(
            SessionTaskView::Remote {
                client: place_client(p),
                command: interrupt_line(place_session(p)),
            },
        )
    }
}

/// The action that a stage of restarting with `command` waits on.
pub open spec fn restart_pending(command: Seq<char>, stage: RestartStageView) -> ActionView {
    match stage {
        RestartStageView::Config { .. } => ActionView::LoadConfig,
        RestartStageView::Check { place, .. } => ActionView::Session(
            place_task(place, TmuxOpView::Exists),
        ),
        RestartStageView::Create { place, dir } => ActionView::Session(
            place_task(place, TmuxOpView::Create { working_dir: dir, command }),
        ),
        RestartStageView::Interrupt { place } => interrupt_action(place),
        RestartStageView::Pause { .. } => ActionView::Sleep { millis: restart_pause() },
        RestartStageView::Resend { place } => ActionView::Session(
            place_task(place, TmuxOpView::SendKeys { keys: command }),
        ),
    }
}

/// How restarting `agent` starts.
pub open spec fn restart_start(agent: Agent) -> StepView<RestartStageView, ()> {
    match agent.remote_host {
        Some(h) => StepView::Next(RestartStageView::Config { host: h@ }, ActionView::LoadConfig),
        None => StepView::Next(
            RestartStageView::Check { place: local_place(agent), dir: agent.worktree_path@ },
            ActionView::Session(place_task(local_place(agent), TmuxOpView::Exists)),
        ),
    }
}

/// The step after `stage` when `reply` comes: a missing session is made again running
/// `command`; a running one gets the interrupt key (Ctrl-C), a pause, and then `command`
/// typed again.
pub open spec fn restart_next(agent: Agent, command: Seq<char>, stage: RestartStage, reply: Reply) -> StepView<RestartStageView, ()> {
    let stay = StepView::Next(stage@, restart_pending(command, stage@));
    match stage {
        RestartStage::Config { host } => match reply {
            Reply::Config(c) => match config_place(c, host, agent.tmux_session@) {
                Err(e) => StepView::Done(Err(e)),
                Ok(p) => match agent.remote_worktree_path {
                    None => StepView::Done(Err(GroveError::MissingWorktreePath)),
                    Some(d) => StepView::Next(
                        RestartStageView::Check { place: p, dir: d@ },
                        restart_pending(command, RestartStageView::Check { place: p, dir: d@ }),
                    ),
                },
            },
            _ => stay,
        },
        RestartStage::Check { place, dir } => match reply {
            Reply::Session(r) => match exists_reply(place_local(place@), r) {
                Some(false) => StepView::Next(
                    RestartStageView::Create { place: place@, dir: dir@ },
                    restart_pending(command, RestartStageView::Create { place: place@, dir: dir@ }),
                ),
                Some(true) => StepView::Next(
                    RestartStageView::Interrupt { place: place@ },
                    interrupt_action(place@),
                ),
                None => stay,
            },
            _ => stay,
        },
        RestartStage::Create { place, .. } => match reply {
            Reply::Session(r) => match done_reply(place_local(place@), r) {
                Some(res) => StepView::Done(res),
                None => stay,
            },
            _ => stay,
        },
        RestartStage::Interrupt { place } => {
            let pause = StepView::Next(
                RestartStageView::Pause { place: place@ },
                ActionView::Sleep { millis: restart_pause() },
            );
            if place_local(place@) {
                match reply {
                    Reply::Finished(_) => pause,
                    _ => stay,
                }
            } else {
                match reply {
                    Reply::Session(SessionReply::Ran(run)) => match unit_result(run) {
                        Ok(()) => pause,
                        Err(e) => StepView::Done(Err(e)),
                    },
                    _ => stay,
                }
            }
        },
        RestartStage::Pause { place } => match reply {
            Reply::Finished(_) => StepView::Next(
                RestartStageView::Resend { place: place@ },
                restart_pending(command, RestartStageView::Resend { place: place@ }),
            ),
            _ => stay,
        },
        RestartStage::Resend { place } => match reply {
            Reply::Session(r) => match done_reply(place_local(place@), r) {
                Some(res) => StepView::Done(res),
                None => stay,
            },
            _ => stay,
        },
    }
}

fn interrupt_action_of(place: &Place) -> (a: Action)
    ensures
        a@ == interrupt_action(place@),
{
    match place {
        Place::Local { session } => {
            let mut args: Vec<String> = Vec::new();
            args.push(to_owned("send-keys"));
            args.push(to_owned("-t"));
            args.push(session.clone());
            args.push(to_owned("C-c"));
            assert(strings_view(args) =~= seq!["send-keys"@, "-t"@, session@, "C-c"@]);
            Action::Process { program: to_owned("tmux"), args }
        },
        Place::Remote { client, session } => {
            let r = RemoteTmuxSession::new(client, session.as_str());
            let command = r.interrupt_command();
            Action::Session(SessionTask::Remote { client: client.duplicate(), command })
        },
    }
}

fn restart_pending_action(command: &str, stage: &RestartStage) -> (a: Action)
    ensures
        a@ == restart_pending(command@, stage@),
{
    match stage {
        RestartStage::Config { .. } => Action::LoadConfig,
        RestartStage::Check { place, .. } => Action::Session(place.task(TmuxOp::Exists)),
        RestartStage::Create { place, dir } => Action::Session(
            place.task(
                TmuxOp::Create { working_dir: to_owned(dir.as_str()), command: to_owned(command) },
            ),
        ),
        RestartStage::Interrupt { place } => interrupt_action_of(place),
        RestartStage::Pause { .. } => Action::Sleep { millis: 100 },
        RestartStage::Resend { place } => Action::Session(
            place.task(TmuxOp::SendKeys { keys: to_owned(command) }),
        ),
    }
}

// ---------------------------------------------------------------------------------------
// Deleting

/// The stages of deleting an agent.
#[derive(Debug)]
pub enum DeleteStage {
    /// Waiting for the configuration; `path` is the remote worktree.
    Config { host: String, path: String },
    /// Waiting to learn whether the session exists; `path` is the agent's worktree.
    Check { place: Place, path: String },
    Kill { place: Place, path: String },
    /// Waiting to learn whether the local worktree exists.
    CheckPath { path: String },
    /// Waiting for the local worktree to be removed.
    Remove { path: String },
    /// Waiting for the remote worktree to be deleted.
    Wipe { client: SshClient, path: String },
}

/// `DeleteStage` as plain values.
pub enum DeleteStageView {
    Config { host: Seq<char>, path: Seq<char> },
    Check { place: PlaceView, path: Seq<char> },
    Kill { place: PlaceView, path: Seq<char> },
    CheckPath { path: Seq<char> },
    Remove { path: Seq<char> },
    Wipe { client: SshClientView, path: Seq<char> },
}

impl View for DeleteStage {
    type V = DeleteStageView;

    open spec fn view(&self) -> DeleteStageView {
        match self {
            DeleteStage::Config { host, path } => DeleteStageView::Config { host: host@, path: path@ },
            DeleteStage::Check { place, path } => DeleteStageView::Check { place: place@, path: path@ },
            DeleteStage::Kill { place, path } => DeleteStageView::Kill { place: place@, path: path@ },
            DeleteStage::CheckPath { path } => DeleteStageView::CheckPath { path: path@ },
            DeleteStage::Remove { path } => DeleteStageView::Remove { path: path@ },
            DeleteStage::Wipe { client, path } => DeleteStageView::Wipe { client: client@, path: path@ },
        }
    }
}

/// The command that deletes the directory `path` on a remote host.
pub open spec fn wipe_line(path: Seq<char>) -> Seq<char> {
    "rm -rf "@ + path
}

/// The action that a stage of deleting waits on.
pub open spec fn delete_pending(m: AgentManager, stage: DeleteStageView) -> ActionView {
    match stage {
        DeleteStageView::Config { .. } => ActionView::LoadConfig,
        DeleteStageView::Check { place, .. } => ActionView::Session(place_task(place, TmuxOpView::Exists)),
        DeleteStageView::Kill { place, .. } => ActionView::Session(place_task(place, TmuxOpView::Kill)),
        DeleteStageView::CheckPath { path } => ActionView::PathExists { path },
        DeleteStageView::Remove { path } => ActionView::RemoveWorktree {
            repo_path: m.repo_path@,
            worktree_base: m.worktree_base@,
            path,
        },
        DeleteStageView::Wipe { client, path } => ActionView::Session(
            SessionTaskView::Remote { client, command: wipe_line(path) },
        ),
    }
}

/// How deleting `agent` starts: a remote agent needs its remote worktree.
pub open spec fn delete_start(agent: Agent) -> StepView<DeleteStageView, ()> {
    match agent.remote_host {
        Some(h) => match agent.remote_worktree_path {
            None => StepView::Done(Err(GroveError::MissingWorktreePath)),
            Some(p) => StepView::Next(
                DeleteStageView::Config { host: h@, path: p@ },
                ActionView::LoadConfig,
            ),
        },
        None => StepView::Next(
            DeleteStageView::Check { place: local_place(agent), path: agent.worktree_path@ },
            ActionView::Session(place_task(local_place(agent), TmuxOpView::Exists)),
        ),
    }
}

/// What comes once the session is gone: here, a look at whether the worktree exists; on a
/// remote host, deleting the worktree.
pub open spec fn delete_after_session(m: AgentManager, p: PlaceView, path: Seq<char>) -> StepView<DeleteStageView, ()> {
    let st = if place_local(p) {
        DeleteStageView::CheckPath { path }
    } else {
        DeleteStageView::Wipe { client: place_client(p), path }
    };
    StepView::Next(st, delete_pending(m, st))
}

/// The step after `stage` when `reply` comes: a running session is ended first; then a local
/// worktree is removed if it exists, a remote one is deleted.
pub open spec fn delete_next(m: AgentManager, agent: Agent, stage: DeleteStage, reply: Reply) -> StepView<DeleteStageView, ()> {
    let stay = StepView::Next(stage@, delete_pending(m, stage@));
    match stage {
        DeleteStage::Config { host, path } => match reply {
            Reply::Config(c) => match config_place(c, host, agent.tmux_session@) {
                Err(e) => StepView::Done(Err(e)),
                Ok(p) => StepView::Next(
                    DeleteStageView::Check { place: p, path: path@ },
                    delete_pending(m, DeleteStageView::Check { place: p, path: path@ }),
                ),
            },
            _ => stay,
        },
        DeleteStage::Check { place, path } => match reply {
            Reply::Session(r) => match exists_reply(place_local(place@), r) {
                Some(true) => StepView::Next(
                    DeleteStageView::Kill { place: place@, path: path@ },
                    delete_pending(m, DeleteStageView::Kill { place: place@, path: path@ }),
                ),
                Some(false) => delete_after_session(m, place@, path@),
                None => stay,
            },
            _ => stay,
        },
        DeleteStage::Kill { place, path } => match reply {
            Reply::Session(r) => match done_reply(place_local(place@), r) {
                Some(Ok(())) => delete_after_session(m, place@, path@),
                Some(Err(e)) => StepView::Done(
                    Err(
                        if place_local(place@) {
                            in_context(e, FailedStep::KillSession)
                        } else {
                            e
                        },
                    ),
                ),
                None => stay,
            },
            _ => stay,
        },
        DeleteStage::CheckPath { path } => match reply {
            Reply::PathExists(false) => StepView::Done(Ok(())),
            Reply::PathExists(true) => StepView::Next(
                DeleteStageView::Remove { path: path@ },
                delete_pending(m, DeleteStageView::Remove { path: path@ }),
            ),
            _ => stay,
        },
        DeleteStage::Remove { .. } => match reply {
            Reply::Finished(Ok(())) => StepView::Done(Ok(())),
            Reply::Finished(Err(cause)) => StepView::Done(
                Err(GroveError::Failed { context: Some(FailedStep::RemoveWorktree), cause }),
            ),
            _ => stay,
        },
        DeleteStage::Wipe { .. } => match reply {
            Reply::Session(SessionReply::Ran(run)) => StepView::Done(unit_result(run)),
            _ => stay,
        },
    }
}

fn delete_pending_action(m: &AgentManager, stage: &DeleteStage) -> (a: Action)
    ensures
        a@ == delete_pending(*m, stage@),
{
    match stage {
        DeleteStage::Config { .. } => Action::LoadConfig,
        DeleteStage::Check { place, .. } => Action::Session(place.task(TmuxOp::Exists)),
        DeleteStage::Kill { place, .. } => Action::Session(place.task(TmuxOp::Kill)),
        DeleteStage::CheckPath { path } => Action::PathExists { path: path.clone() },
        DeleteStage::Remove { path } => Action::RemoveWorktree {
            repo_path: m.repo_path.clone(),
            worktree_base: m.worktree_base.clone(),
            path: path.clone(),
        },
        DeleteStage::Wipe { client, path } => {
            let mut command = to_owned("rm -rf ");
            command.append(path.as_str());
            Action::Session(SessionTask::Remote { client: client.duplicate(), command })
        },
    }
}


fn delete_after(m: &AgentManager, place: Place, path: String) -> (r: Step<DeleteStage, ()>)
    ensures
        r@ == delete_after_session(*m, place@, path@),
{
    let st = match place {
        Place::Local { .. } => DeleteStage::CheckPath { path },
        Place::Remote { client, .. } => DeleteStage::Wipe { client, path },
    };
    let a = delete_pending_action(m, &st);
    Step::Next(st, a)
}

impl AgentManager {
    /// Starts restarting the agent's assistant with `command`.
    pub fn restart_agent(&self, agent: &Agent, command: &str) -> (r: Step<RestartStage, ()>)
        ensures
            r@ == restart_start(*agent),
    {
        match &agent.remote_host {
            Some(h) => Step::Next(RestartStage::Config { host: h.clone() }, Action::LoadConfig),
            None => {
                let place = local_place_of(agent);
                let a = Action::Session(place.task(TmuxOp::Exists));
                Step::Next(RestartStage::Check { place, dir: agent.worktree_path.clone() }, a)
            },
        }
    }

    /// Continues restarting, from `stage`, with the reply to its pending action.
    pub fn resume_restart_agent(&self, agent: &Agent, command: &str, stage: RestartStage, reply: Reply) -> (r: Step<RestartStage, ()>)
        ensures
            r@ == restart_next(*agent, command@, stage, reply),
    {
        match stage {
            RestartStage::Config { host } => match reply {
                Reply::Config(c) => match locate_remote(c, &host, &agent.tmux_session) {
                    Err(e) => Step::Done(Err(e)),
                    Ok(place) => match &agent.remote_worktree_path {
                        None => Step::Done(Err(GroveError::MissingWorktreePath)),
                        Some(d) => {
                            let st = RestartStage::Check { place, dir: d.clone() };
                            let a = restart_pending_action(command, &st);
                            Step::Next(st, a)
                        },
                    },
                },
                _ => {
                    let st = RestartStage::Config { host };
                    let a = restart_pending_action(command, &st);
                    Step::Next(st, a)
                },
            },
            RestartStage::Check { place, dir } => {
                let seen = match reply {
                    Reply::Session(r) => place.read_exists(r),
                    _ => None,
                };
                let st = match seen {
                    Some(false) => RestartStage::Create { place, dir },
                    Some(true) => RestartStage::Interrupt { place },
                    None => RestartStage::Check { place, dir },
                };
                let a = restart_pending_action(command, &st);
                Step::Next(st, a)
            },
            RestartStage::Create { place, dir } => {
                let seen = match reply {
                    Reply::Session(r) => place.read_done(r),
                    _ => None,
                };
                match seen {
                    Some(res) => Step::Done(res),
                    None => {
                        let st = RestartStage::Create { place, dir };
                        let a = restart_pending_action(command, &st);
                        Step::Next(st, a)
                    },
                }
            },
            RestartStage::Interrupt { place } => {
                let heard: Option<Result<(), GroveError>> = match (&place, reply) {
                    (Place::Local { .. }, Reply::Finished(_)) => Some(Ok(())),
                    (Place::Remote { client, .. }, Reply::Session(SessionReply::Ran(run))) => Some(
                        match client.execute(run) {
                            Ok(_) => Ok(()),
                            Err(e) => Err(e),
                        },
                    ),
                    _ => None,
                };
                match heard {
                    Some(Ok(())) => Step::Next(
                        RestartStage::Pause { place },
                        Action::Sleep { millis: 100 },
                    ),
                    Some(Err(e)) => Step::Done(Err(e)),
                    None => {
                        let st = RestartStage::Interrupt { place };
                        let a = restart_pending_action(command, &st);
                        Step::Next(st, a)
                    },
                }
            },
            RestartStage::Pause { place } => match reply {
                Reply::Finished(_) => {
                    let st = RestartStage::Resend { place };
                    let a = restart_pending_action(command, &st);
                    Step::Next(st, a)
                },
                _ => {
                    let st = RestartStage::Pause { place };
                    let a = restart_pending_action(command, &st);
                    Step::Next(st, a)
                },
            },
            RestartStage::Resend { place } => {
                let seen = match reply {
                    Reply::Session(r) => place.read_done(r),
                    _ => None,
                };
                match seen {
                    Some(res) => Step::Done(res),
                    None => {
                        let st = RestartStage::Resend { place };
                        let a = restart_pending_action(command, &st);
                        Step::Next(st, a)
                    },
                }
            },
        }
    }

    /// Starts deleting the agent: its session and its worktree.
    pub fn delete_agent(&self, agent: &Agent) -> (r: Step<DeleteStage, ()>)
        ensures
            r@ == delete_start(*agent),
    {
        match &agent.remote_host {
            Some(h) => match &agent.remote_worktree_path {
                None => Step::Done(Err(GroveError::MissingWorktreePath)),
                Some(p) => Step::Next(
                    DeleteStage::Config { host: h.clone(), path: p.clone() },
                    Action::LoadConfig,
                ),
            },
            None => {
                let place = local_place_of(agent);
                let a = Action::Session(place.task(TmuxOp::Exists));
                Step::Next(DeleteStage::Check { place, path: agent.worktree_path.clone() }, a)
            },
        }
    }

    /// Continues deleting, from `stage`, with the reply to its pending action.
    pub fn resume_delete_agent(&self, agent: &Agent, stage: DeleteStage, reply: Reply) -> (r: Step<DeleteStage, ()>)
        ensures
            r@ == delete_next(*self, *agent, stage, reply),
    {
        match stage {
            DeleteStage::Config { host, path } => match reply {
                Reply::Config(c) => match locate_remote(c, &host, &agent.tmux_session) {
                    Err(e) => Step::Done(Err(e)),
                    Ok(place) => {
                        let st = DeleteStage::Check { place, path };
                        let a = delete_pending_action(self, &st);
                        Step::Next(st, a)
                    },
                },
                _ => {
                    let st = DeleteStage::Config { host, path };
                    let a = delete_pending_action(self, &st);
                    Step::Next(st, a)
                },
            },
            DeleteStage::Check { place, path } => {
                let seen = match reply {
                    Reply::Session(r) => place.read_exists(r),
                    _ => None,
                };
                match seen {
                    Some(true) => {
                        let st = DeleteStage::Kill { place, path };
                        let a = delete_pending_action(self, &st);
                        Step::Next(st, a)
                    },
                    Some(false) => delete_after(self, place, path),
                    None => {
                        let st = DeleteStage::Check { place, path };
                        let a = delete_pending_action(self, &st);
                        Step::Next(st, a)
                    },
                }
            },
            DeleteStage::Kill { place, path } => {
                let seen = match reply {
                    Reply::Session(r) => place.read_done(r),
                    _ => None,
                };
                match seen {
                    Some(Ok(())) => delete_after(self, place, path),
                    Some(Err(e)) => if is_local(&place) {
                        Step::Done(Err(with_context(e, FailedStep::KillSession)))
                    } else {
                        Step::Done(Err(e))
                    },
                    None => {
                        let st = DeleteStage::Kill { place, path };
                        let a = delete_pending_action(self, &st);
                        Step::Next(st, a)
                    },
                }
            },
            DeleteStage::CheckPath { path } => match reply {
                Reply::PathExists(false) => Step::Done(Ok(())),
                Reply::PathExists(true) => {
                    let st = DeleteStage::Remove { path };
                    let a = delete_pending_action(self, &st);
                    Step::Next(st, a)
                },
                _ => {
                    let st = DeleteStage::CheckPath { path };
                    let a = delete_pending_action(self, &st);
                    Step::Next(st, a)
                },
            },
            DeleteStage::Remove { path } => match reply {
                Reply::Finished(Ok(())) => Step::Done(Ok(())),
                Reply::Finished(Err(cause)) => Step::Done(
                    Err(GroveError::Failed { context: Some(FailedStep::RemoveWorktree), cause }),
                ),
                _ => {
                    let st = DeleteStage::Remove { path };
                    let a = delete_pending_action(self, &st);
                    Step::Next(st, a)
                },
            },
            DeleteStage::Wipe { client, path } => match reply {
                Reply::Session(SessionReply::Ran(run)) => match client.execute(run) {
                    Ok(_) => Step::Done(Ok(())),
                    Err(e) => Step::Done(Err(e)),
                },
                _ => {
                    let st = DeleteStage::Wipe { client, path };
                    let a = delete_pending_action(self, &st);
                    Step::Next(st, a)
                },
            },
        }
    }
}


// ---------------------------------------------------------------------------------------
// Creating a local agent

/// The stages of creating a local agent.
#[derive(Debug)]
pub enum CreateStage {
    /// Waiting for the worktree; `id` is the new agent's UUID.
    Worktree { id: u128 },
    /// Waiting for the links into the worktree at `path`.
    Links { id: u128, path: String },
    /// Waiting for the agent's session to start.
    Start { agent: Agent },
}

/// `CreateStage` as plain values.
pub enum CreateStageView {
    Worktree { id: u128 },
    Links { id: u128, path: Seq<char> },
    Start { agent: AgentView },
}

impl View for CreateStage {
    type V = CreateStageView;

    open spec fn view(&self) -> CreateStageView {
        match self {
            CreateStage::Worktree { id } => CreateStageView::Worktree { id: *id },
            CreateStage::Links { id, path } => CreateStageView::Links { id: *id, path: path@ },
            CreateStage::Start { agent } => CreateStageView::Start { agent: agent@ },
        }
    }
}

/// The views of a slice of strings.
pub open spec fn slice_view(v: Seq<String>) -> Seq<Seq<char>> {
    v.map_values(|s: String| s@)
}

/// A new local agent, as plain values.
pub open spec fn local_agent(id: u128, name: Seq<char>, branch: Seq<char>, path: Seq<char>) -> AgentView {
    AgentView {
        id,
        name,
        branch,
        worktree_path: path,
        tmux_session: session_name_for(id),
        remote_host: None,
        remote_worktree_path: None,
    }
}

/// The action that a stage of creating an agent on `branch` waits on; the agent's session
/// runs `command`, and `links` are linked into its worktree.
pub open spec fn create_pending(
    m: AgentManager,
    branch: Seq<char>,
    command: Seq<char>,
    links: Seq<Seq<char>>,
    stage: CreateStageView,
) -> ActionView {
    match stage {
        CreateStageView::Worktree { .. } => ActionView::CreateWorktree {
            repo_path: m.repo_path@,
            worktree_base: m.worktree_base@,
            branch,
        },
        CreateStageView::Links { path, .. } => ActionView::CreateSymlinks {
            repo_path: m.repo_path@,
            worktree_base: m.worktree_base@,
            worktree_path: path,
            links,
        },
        CreateStageView::Start { agent } => ActionView::Session(
            SessionTaskView::Local {
                session: agent.tmux_session,
                op: TmuxOpView::Create { working_dir: agent.worktree_path, command },
            },
        ),
    }
}

/// The step after `stage` when `reply` comes: the worktree, then its links, then the
/// session; each failure is reported under the name of its step.
pub open spec fn create_next(
    m: AgentManager,
    name: Seq<char>,
    branch: Seq<char>,
    command: Seq<char>,
    links: Seq<Seq<char>>,
    stage: CreateStage,
    reply: Reply,
) -> StepView<CreateStageView, AgentView> {
    let stay = StepView::Next(stage@, create_pending(m, branch, command, links, stage@));
    match stage {
        CreateStage::Worktree { id } => match reply {
            Reply::Path(Ok(p)) => StepView::Next(
                CreateStageView::Links { id, path: p@ },
                create_pending(m, branch, command, links, CreateStageView::Links { id, path: p@ }),
            ),
            Reply::Path(Err(cause)) => StepView::Done(
                Err(GroveError::Failed { context: Some(FailedStep::CreateWorktree), cause }),
            ),
            _ => stay,
        },
        CreateStage::Links { id, path } => match reply {
            Reply::Finished(Ok(())) => {
                let st = CreateStageView::Start { agent: local_agent(id, name, branch, path@) };
                StepView::Next(st, create_pending(m, branch, command, links, st))
            },
            Reply::Finished(Err(cause)) => StepView::Done(
                Err(GroveError::Failed { context: Some(FailedStep::CreateSymlinks), cause }),
            ),
            _ => stay,
        },
        CreateStage::Start { agent } => match reply {
            Reply::Session(r) => match done_reply(true, r) {
                Some(Ok(())) => StepView::Done(Ok(agent@)),
                Some(Err(e)) => StepView::Done(Err(in_context(e, FailedStep::CreateSession))),
                None => stay,
            },
            _ => stay,
        },
    }
}

fn copy_strings(v: &[String]) -> (r: Vec<String>)
    ensures
        strings_view(r) == slice_view(v@),
{
    let mut r: Vec<String> = Vec::new();
    let mut i: usize = 0;
    while i < v.len()
        invariant
            i <= v.len(),
            r.len() == i,
            strings_view(r) == slice_view(v@.take(i as int)),
        decreases v.len() - i,
    {
        let ghost prev = r@;
        r.push(v[i].clone());
        assert(v@.take(i + 1) == v@.take(i as int).push(v@[i as int]));
        assert forall|k: int| 0 <= k < r@.len() implies #[trigger] strings_view(r)[k] == slice_view(v@.take(i + 1))[k] by {
            if k < i {
                assert(r@[k] == prev[k]);
                assert(prev.map_values(|s: String| s@)[k] == slice_view(v@.take(i as int))[k]);
            }
        }
        assert(strings_view(r) =~= slice_view(v@.take(i + 1)));
        i = i + 1;
    }
    assert(v@.take(v.len() as int) == v@);
    r
}

fn create_pending_action(m: &AgentManager, branch: &str, command: &str, links: &[String], stage: &CreateStage) -> (a: Action)
    ensures
        a@ == create_pending(*m, branch@, command@, slice_view(links@), stage@),
{
    match stage {
        CreateStage::Worktree { .. } => Action::CreateWorktree {
            repo_path: m.repo_path.clone(),
            worktree_base: m.worktree_base.clone(),
            branch: to_owned(branch),
        },
        CreateStage::Links { path, .. } => Action::CreateSymlinks {
            repo_path: m.repo_path.clone(),
            worktree_base: m.worktree_base.clone(),
            worktree_path: path.clone(),
            links: copy_strings(links),
        },
        CreateStage::Start { agent } => Action::Session(
            SessionTask::Local {
                session: agent.tmux_session.clone(),
                op: TmuxOp::Create {
                    working_dir: agent.worktree_path.clone(),
                    command: to_owned(command),
                },
            },
        ),
    }
}

// ---------------------------------------------------------------------------------------
// Creating a remote agent

/// The stages of creating an agent on a remote host.
#[derive(Debug)]
pub enum CreateRemoteStage {
    /// Waiting for the remote worktree at `path` to be prepared; `id` is the agent's UUID.
    Prepare { id: u128, client: SshClient, path: String },
    /// Waiting for the agent's remote session to start.
    Start { agent: Agent, client: SshClient },
}

/// `CreateRemoteStage` as plain values.
pub enum CreateRemoteStageView {
    Prepare { id: u128, client: SshClientView, path: Seq<char> },
    Start { agent: AgentView, client: SshClientView },
}

impl View for CreateRemoteStage {
    type V = CreateRemoteStageView;

    open spec fn view(&self) -> CreateRemoteStageView {
        match self {
            CreateRemoteStage::Prepare { id, client, path } => CreateRemoteStageView::Prepare {
                id: *id,
                client: client@,
                path: path@,
            },
            CreateRemoteStage::Start { agent, client } => CreateRemoteStageView::Start {
                agent: agent@,
                client: client@,
            },
        }
    }
}

/// The command that makes the remote worktree at `path` for `branch`: a worktree of the
/// repository there, or failing that a bare clone with the branch checked out.
pub open spec fn prepare_line(path: Seq<char>, branch: Seq<char>) -> Seq<char> {
    "mkdir -p "@ + path + " && cd "@ + path + " && git worktree add "@ + branch + " "@ + branch
        + " 2>/dev/null || git clone --bare . "@ + path + " && cd "@ + path
        + " && git checkout -b "@ + branch
}

/// A new agent on the host named `host`, as plain values.
pub open spec fn remote_agent(id: u128, name: Seq<char>, branch: Seq<char>, path: Seq<char>, host: Seq<char>) -> AgentView {
    AgentView {
        id,
        name,
        branch,
        worktree_path: path,
        tmux_session: session_name_for(id),
        remote_host: Some(host),
        remote_worktree_path: Some(path),
    }
}

/// The action that a stage of creating a remote agent on `branch` waits on.
pub open spec fn create_remote_pending(branch: Seq<char>, command: Seq<char>, stage: CreateRemoteStageView) -> ActionView {
    match stage {
        CreateRemoteStageView::Prepare { client, path, .. } => ActionView::Session(
            SessionTaskView::Remote { client, command: prepare_line(path, branch) },
        ),
        CreateRemoteStageView::Start { agent, client } => ActionView::Session(
            SessionTaskView::Remote {
                client,
                command: create_line(agent.tmux_session, agent.worktree_path, command),
            },
        ),
    }
}

/// The step after `stage` when `reply` comes: the worktree is prepared, then the session is
/// started in it running `command`.
pub open spec fn create_remote_next(
    name: Seq<char>,
    branch: Seq<char>,
    command: Seq<char>,
    host: RemoteHost,
    stage: CreateRemoteStage,
    reply: Reply,
) -> StepView<CreateRemoteStageView, AgentView> {
    let stay = StepView::Next(stage@, create_remote_pending(branch, command, stage@));
    match stage {
        CreateRemoteStage::Prepare { id, client, path } => match reply {
            Reply::Session(SessionReply::Ran(run)) => match exec_result(run) {
                Err(e) => StepView::Done(Err(e)),
                Ok(_) => {
                    let st = CreateRemoteStageView::Start {
                        agent: remote_agent(id, name, branch, path@, host.name@),
                        client: client@,
                    };
                    StepView::Next(st, create_remote_pending(branch, command, st))
                },
            },
            _ => stay,
        },
        CreateRemoteStage::Start { agent, .. } => match reply {
            Reply::Session(SessionReply::Ran(run)) => match unit_result(run) {
                Err(e) => StepView::Done(Err(e)),
                Ok(()) => StepView::Done(Ok(agent@)),
            },
            _ => stay,
        },
    }
}

fn create_remote_pending_action(branch: &str, command: &str, stage: &CreateRemoteStage) -> (a: Action)
    ensures
        a@ == create_remote_pending(branch@, command@, stage@),
{
    match stage {
        CreateRemoteStage::Prepare { client, path, .. } => {
            let p = path.as_str();
            let mut c = to_owned("mkdir -p ");
            c.append(p);
            c.append(" && cd ");
            c.append(p);
            c.append(" && git worktree add ");
            c.append(branch);
            c.append(" ");
            c.append(branch);
            c.append(" 2>/dev/null || git clone --bare . ");
            c.append(p);
            c.append(" && cd ");
            c.append(p);
            c.append(" && git checkout -b ");
            c.append(branch);
            Action::Session(SessionTask::Remote { client: client.duplicate(), command: c })
        },
        CreateRemoteStage::Start { agent, client } => {
            let r = RemoteTmuxSession::new(client, agent.tmux_session.as_str());
            let c = r.create_command(agent.worktree_path.as_str(), command);
            Action::Session(SessionTask::Remote { client: client.duplicate(), command: c })
        },
    }
}

// ---------------------------------------------------------------------------------------
// Orphaned sessions

/// The session names of the agents with UUIDs `ids`.
pub open spec fn known_session_names(ids: Seq<u128>) -> Seq<Seq<char>> {
    ids.map_values(|id: u128| session_name_for(id))
}

/// The sessions of `sessions` that belong to none of the agents with UUIDs `ids`, in order.
pub open spec fn orphans(sessions: Seq<Seq<char>>, ids: Seq<u128>) -> Seq<Seq<char>> {
    sessions.filter(|s: Seq<char>| !known_session_names(ids).contains(s))
}

fn names_contain(names: &Vec<String>, s: &str) -> (r: bool)
    ensures
        r == strings_view(*names).contains(s@),
{
    let mut i: usize = 0;
    while i < names.len()
        invariant
            i <= names.len(),
            forall|k: int| 0 <= k < i ==> #[trigger] names@[k]@ != s@,
        decreases names.len() - i,
    {
        if same_text(names[i].as_str(), s) {
            assert(strings_view(*names)[i as int] == s@);
            return true;
        }
        i = i + 1;
    }
    assert forall|k: int| 0 <= k < strings_view(*names).len() implies #[trigger] strings_view(*names)[k] != s@ by {
        assert(strings_view(*names)[k] == names@[k]@);
    }
    false
}


impl AgentManager {
    /// Starts creating a local agent called `name` on `branch`: a worktree with `links`
    /// linked into it, and a session in it running `command`. The agent gets a new random
    /// UUID.
    pub fn create_agent(&self, name: &str, branch: &str, command: &str, links: &[String]) -> (r: Step<CreateStage, Agent>)
        ensures
            r@ matches StepView::Next(CreateStageView::Worktree { id }, a) && is_v4(id) && a
                == create_pending(
                *self,
                branch@,
                command@,
                slice_view(links@),
                CreateStageView::Worktree { id },
            ),
    {
        let id: u128 = new_agent_id();
        let st = CreateStage::Worktree { id };
        let a = create_pending_action(self, branch, command, links, &st);
        Step::Next(st, a)
    }

    /// Continues creating a local agent, from `stage`, with the reply to its pending action.
    pub fn resume_create_agent(
        &self,
        name: &str,
        branch: &str,
        command: &str,
        links: &[String],
        stage: CreateStage,
        reply: Reply,
    ) -> (r: Step<CreateStage, Agent>)
        ensures
            r@ == create_next(*self, name@, branch@, command@, slice_view(links@), stage, reply),
    {
        match stage {
            CreateStage::Worktree { id } => match reply {
                Reply::Path(Ok(path)) => {
                    let st = CreateStage::Links { id, path };
                    let a = create_pending_action(self, branch, command, links, &st);
                    Step::Next(st, a)
                },
                Reply::Path(Err(cause)) => Step::Done(
                    Err(GroveError::Failed { context: Some(FailedStep::CreateWorktree), cause }),
                ),
                _ => {
                    let st = CreateStage::Worktree { id };
                    let a = create_pending_action(self, branch, command, links, &st);
                    Step::Next(st, a)
                },
            },
            CreateStage::Links { id, path } => match reply {
                Reply::Finished(Ok(())) => {
                    let agent = Agent::new(id, name, branch, path.as_str());
                    let st = CreateStage::Start { agent };
                    let a = create_pending_action(self, branch, command, links, &st);
                    Step::Next(st, a)
                },
                Reply::Finished(Err(cause)) => Step::Done(
                    Err(GroveError::Failed { context: Some(FailedStep::CreateSymlinks), cause }),
                ),
                _ => {
                    let st = CreateStage::Links { id, path };
                    let a = create_pending_action(self, branch, command, links, &st);
                    Step::Next(st, a)
                },
            },
            CreateStage::Start { agent } => {
                let heard: Option<Result<(), GroveError>> = match reply {
                    Reply::Session(SessionReply::Finished(Ok(()))) => Some(Ok(())),
                    Reply::Session(SessionReply::Finished(Err(cause))) => Some(
                        Err(GroveError::Failed { context: None, cause }),
                    ),
                    _ => None,
                };
                match heard {
                    Some(Ok(())) => Step::Done(Ok(agent)),
                    Some(Err(e)) => Step::Done(Err(with_context(e, FailedStep::CreateSession))),
                    None => {
                        let st = CreateStage::Start { agent };
                        let a = create_pending_action(self, branch, command, links, &st);
                        Step::Next(st, a)
                    },
                }
            },
        }
    }

    /// Starts creating an agent called `name` on `branch` on the configured host: a worktree
    /// on the host, named by a new random UUID, and a session in it running `command`. The
    /// agent gets a new random UUID of its own.
    pub fn create_remote_agent(&self, name: &str, branch: &str, command: &str, remote_host: &RemoteHost) -> (r: Step<CreateRemoteStage, Agent>)
        ensures
            r@ matches StepView::Next(CreateRemoteStageView::Prepare { id, client, path }, a)
                && is_v4(id) && client == host_client(*remote_host) && (exists|w: u128|
                is_v4(w) && path == remote_worktree(*remote_host, #[trigger] hyphenated_uuid(w)))
                && a == create_remote_pending(
                branch@,
                command@,
                CreateRemoteStageView::Prepare { id, client, path },
            ),
    {
        let client = match SshClient::from_config(remote_host) {
            Ok(c) => c,
            Err(e) => return Step::Done(Err(e)),
        };
        let worktree_id: u128 = new_agent_id();
        let wid = hyphenated_id(worktree_id);
        let path = remote_host.worktree_path(wid.as_str());
        let id: u128 = new_agent_id();
        let st = CreateRemoteStage::Prepare { id, client, path };
        let a = create_remote_pending_action(branch, command, &st);
        Step::Next(st, a)
    }

    /// Continues creating a remote agent, from `stage`, with the reply to its pending action.
    pub fn resume_create_remote_agent(
        &self,
        name: &str,
        branch: &str,
        command: &str,
        remote_host: &RemoteHost,
        stage: CreateRemoteStage,
        reply: Reply,
    ) -> (r: Step<CreateRemoteStage, Agent>)
        ensures
            r@ == create_remote_next(name@, branch@, command@, *remote_host, stage, reply),
    {
        match stage {
            CreateRemoteStage::Prepare { id, client, path } => match reply {
                Reply::Session(SessionReply::Ran(run)) => match client.execute(run) {
                    Err(e) => Step::Done(Err(e)),
                    Ok(_) => {
                        let mut agent = Agent::new(id, name, branch, path.as_str());
                        agent.remote_host = Some(remote_host.name.clone());
                        agent.remote_worktree_path = Some(path);
                        let st = CreateRemoteStage::Start { agent, client };
                        let a = create_remote_pending_action(branch, command, &st);
                        Step::Next(st, a)
                    },
                },
                _ => {
                    let st = CreateRemoteStage::Prepare { id, client, path };
                    let a = create_remote_pending_action(branch, command, &st);
                    Step::Next(st, a)
                },
            },
            CreateRemoteStage::Start { agent, client } => match reply {
                Reply::Session(SessionReply::Ran(run)) => match client.execute(run) {
                    Err(e) => Step::Done(Err(e)),
                    Ok(_) => Step::Done(Ok(agent)),
                },
                _ => {
                    let st = CreateRemoteStage::Start { agent, client };
                    let a = create_remote_pending_action(branch, command, &st);
                    Step::Next(st, a)
                },
            },
        }
    }

    /// The grove sessions running on this machine, from what `tmux` printed when run with
    /// `list_sessions_args` (or why it could not be run): the lines that begin with
    /// `grove-`, in order.
    pub fn list_running_sessions(listed: Result<String, String>) -> (r: Result<Vec<String>, GroveError>)
        ensures
            match listed {
                Err(m) => r == Err::<Vec<String>, GroveError>(reported(m)),
                Ok(out) => r matches Ok(v) && v.len() == lines(out@).filter(
                    |l: Seq<char>| has_prefix(l, "grove-"@),
                ).len() && forall|k: int|
                    0 <= k < v.len() ==> #[trigger] v[k]@ == lines(out@).filter(
                        |l: Seq<char>| has_prefix(l, "grove-"@),
                    )[k],
            },
    {
        list_grove_sessions(listed)
    }

    /// The running grove sessions (`sessions`, or why they could not be listed) that belong
    /// to none of the agents with UUIDs `known_agents`, in order.
    pub fn find_orphaned_sessions(&self, sessions: Result<Vec<String>, String>, known_agents: &[u128]) -> (r: Result<Vec<String>, GroveError>)
        ensures
            match sessions {
                Err(m) => r == Err::<Vec<String>, GroveError>(reported(m)),
                Ok(v) => r matches Ok(o) && strings_view(o) == orphans(strings_view(v), known_agents@),
            },
    {
        let sessions = match sessions {
            Ok(v) => v,
            Err(m) => return Err(GroveError::Failed { context: None, cause: m }),
        };
        let mut names: Vec<String> = Vec::new();
        let mut i: usize = 0;
        while i < known_agents.len()
            invariant
                i <= known_agents.len(),
                names.len() == i,
                strings_view(names) == known_session_names(known_agents@.take(i as int)),
            decreases known_agents.len() - i,
        {
            let ghost prev = names@;
            names.push(crate::agent::session_name(known_agents[i]));
            assert(known_agents@.take(i + 1) == known_agents@.take(i as int).push(known_agents@[i as int]));
            assert forall|k: int| 0 <= k < names@.len() implies #[trigger] strings_view(names)[k]
                == known_session_names(known_agents@.take(i + 1))[k] by {
                if k < i {
                    assert(names@[k] == prev[k]);
                    assert(prev.map_values(|s: String| s@)[k] == known_session_names(known_agents@.take(i as int))[k]);
                }
            }
            assert(strings_view(names) =~= known_session_names(known_agents@.take(i + 1)));
            i = i + 1;
        }
        assert(known_agents@.take(known_agents.len() as int) == known_agents@);
        let ghost all = strings_view(sessions);
        let ghost pred = |s: Seq<char>| !known_session_names(known_agents@).contains(s);
        let mut out: Vec<String> = Vec::new();
        let mut j: usize = 0;
        while j < sessions.len()
            invariant
                j <= sessions.len(),
                all == strings_view(sessions),
                strings_view(names) == known_session_names(known_agents@),
                pred == (|s: Seq<char>| !known_session_names(known_agents@).contains(s)),
                out.len() == all.take(j as int).filter(pred).len(),
                strings_view(out) == all.take(j as int).filter(pred),
            decreases sessions.len() - j,
        {
            proof {
                reveal(Seq::filter);
                assert(all.take(j + 1).drop_last() == all.take(j as int));
                assert(all.take(j + 1).last() == sessions@[j as int]@);
            }
            let known = names_contain(&names, sessions[j].as_str());
            if !known {
                let ghost prev = out@;
                out.push(sessions[j].clone());
                assert forall|k: int| 0 <= k < out@.len() implies #[trigger] strings_view(out)[k]
                    == all.take(j + 1).filter(pred)[k] by {
                    if k < out@.len() - 1 {
                        assert(out@[k] == prev[k]);
                        assert(prev.map_values(|s: String| s@)[k] == all.take(j as int).filter(pred)[k]);
                    }
                }
                assert(strings_view(out) =~= all.take(j + 1).filter(pred));
            }
            j = j + 1;
        }
        assert(all.take(sessions.len() as int) == all);
        Ok(out)
    }
}


// ---------------------------------------------------------------------------------------
// Laws

/// Law: the session of an agent whose UUID is known is never reported as orphaned, and
/// every session reported is one of the running sessions.
pub proof fn lemma_known_sessions_not_orphaned(sessions: Seq<Seq<char>>, ids: Seq<u128>, i: int, s: Seq<char>)
    requires
        0 <= i < ids.len(),
    ensures
        !orphans(sessions, ids).contains(session_name_for(ids[i])),
        orphans(sessions, ids).contains(s) ==> sessions.contains(s),
{
    broadcast use vstd::seq_lib::group_filter_ensures;

    let pred = |x: Seq<char>| !known_session_names(ids).contains(x);
    let names = known_session_names(ids);
    assert(names[i] == session_name_for(ids[i]));
    assert(names.contains(session_name_for(ids[i])));
    if orphans(sessions, ids).contains(session_name_for(ids[i])) {
        let j = choose|j: int|
            0 <= j < orphans(sessions, ids).len() && orphans(sessions, ids)[j] == session_name_for(ids[i]);
        assert(pred(sessions.filter(pred)[j]));
    }
    if orphans(sessions, ids).contains(s) {
        sessions.lemma_filter_contains_rev(pred, s);
    }
}

proof fn lemma_filter_twice(s: Seq<Seq<char>>, p: spec_fn(Seq<char>) -> bool, q: spec_fn(Seq<char>) -> bool)
    requires
        forall|x: Seq<char>| #[trigger] q(x) ==> p(x),
    ensures
        s.filter(p).filter(q) == s.filter(q),
    decreases s.len(),
{
    reveal(Seq::filter);
    if s.len() > 0 {
        lemma_filter_twice(s.drop_last(), p, q);
        let a = s.drop_last().filter(p);
        if p(s.last()) {
            assert(a.push(s.last()).drop_last() =~= a);
        }
    }
}

proof fn lemma_filter_all(s: Seq<Seq<char>>, p: spec_fn(Seq<char>) -> bool)
    requires
        forall|x: Seq<char>| #[trigger] p(x),
    ensures
        s.filter(p) == s,
    decreases s.len(),
{
    reveal(Seq::filter);
    if s.len() > 0 {
        lemma_filter_all(s.drop_last(), p);
        assert(s.drop_last().push(s.last()) =~= s);
    }
}

/// Law: knowing more agents only takes sessions away from the orphans. When every UUID of
/// `fewer` is also in `more`, the orphans for `more` are the orphans for `fewer` without
/// the sessions of `more`'s agents (so they are a subsequence of them); and with no known
/// agents every running session is an orphan.
pub proof fn lemma_orphans_shrink(sessions: Seq<Seq<char>>, fewer: Seq<u128>, more: Seq<u128>)
    requires
        forall|i: int| 0 <= i < fewer.len() ==> more.contains(#[trigger] fewer[i]),
    ensures
        orphans(sessions, more) == orphans(sessions, fewer).filter(
            |s: Seq<char>| !known_session_names(more).contains(s),
        ),
        orphans(sessions, Seq::<u128>::empty()) == sessions,
{
    let p = |s: Seq<char>| !known_session_names(fewer).contains(s);
    let q = |s: Seq<char>| !known_session_names(more).contains(s);
    assert forall|x: Seq<char>| #[trigger] q(x) implies p(x) by {
        if known_session_names(fewer).contains(x) {
            let i = choose|i: int| 0 <= i < known_session_names(fewer).len()
                && known_session_names(fewer)[i] == x;
            assert(more.contains(fewer[i]));
            let j = choose|j: int| 0 <= j < more.len() && more[j] == fewer[i];
            assert(known_session_names(more)[j] == x);
        }
    }
    lemma_filter_twice(sessions, p, q);
    let none = |s: Seq<char>| !known_session_names(Seq::<u128>::empty()).contains(s);
    assert forall|x: Seq<char>| #[trigger] none(x) by {
        assert(known_session_names(Seq::<u128>::empty()) =~= Seq::<Seq<char>>::empty());
    }
    lemma_filter_all(sessions, none);
}

/// How far sending input is from done.
pub open spec fn send_rank(stage: SendStageView) -> nat {
    match stage {
        SendStageView::Config { .. } => 3,
        SendStageView::Check { .. } => 2,
        SendStageView::Send { .. } => 1,
    }
}

/// Law: every reply to sending input either finishes the job, moves it closer to done, or,
/// when it does not answer the pending action, leaves it as it was; and keys are typed
/// only into a session that the reply just showed to exist.
pub proof fn lemma_send_input(agent: Agent, input: Seq<char>, stage: SendStage, reply: Reply)
    ensures
        match send_next(agent, input, stage, reply) {
            StepView::Done(_) => true,
            StepView::Next(s2, a) => send_rank(s2) < send_rank(stage@) || (s2 == stage@ && a
                == send_pending(input, s2)),
        },
        send_next(agent, input, stage, reply) matches StepView::Next(SendStageView::Send { place: p }, _) ==> (
        stage@ == SendStageView::Send { place: p } || match (stage, reply) {
            (SendStage::Check { place }, Reply::Session(r)) => place@ == p && exists_reply(
                place_local(p),
                r,
            ) == Some(true),
            _ => false,
        }),
{
}

/// How far capturing output is from done.
pub open spec fn capture_rank(stage: CaptureStageView) -> nat {
    match stage {
        CaptureStageView::Config { .. } => 3,
        CaptureStageView::Check { .. } => 2,
        CaptureStageView::Capture { .. } => 1,
    }
}

/// Law: every reply to a capture finishes it, moves it closer to done, or leaves it as it
/// was; a session that the reply shows to be missing has empty output.
pub proof fn lemma_capture_output(agent: Agent, lines: usize, stage: CaptureStage, reply: Reply)
    ensures
        match capture_next(agent, lines, stage, reply) {
            StepView::Done(_) => true,
            StepView::Next(s2, a) => capture_rank(s2) < capture_rank(stage@) || (s2 == stage@
                && a == capture_pending(lines, s2)),
        },
        match (stage, reply) {
            (CaptureStage::Check { place }, Reply::Session(r)) => exists_reply(place_local(place@), r)
                == Some(false) ==> capture_next(agent, lines, stage, reply) == StepView::<
                CaptureStageView,
                Seq<char>,
            >::Done(Ok(seq![])),
            _ => true,
        },
{
}

/// Law: the check of a session's life always ends within two answered replies, and a host
/// that cannot be found (no configuration, or no host of that name) makes the session not
/// alive rather than an error.
pub proof fn lemma_is_session_alive(agent: Agent, stage: AliveStage, reply: Reply)
    ensures
        match alive_next(agent, stage, reply) {
            StepView::Done(r) => r is Ok,
            StepView::Next(s2, a) => (stage is Config && s2 is Check) || (s2 == stage@ && a
                == alive_pending(s2)),
        },
        match (stage, reply) {
            (AliveStage::Config { host }, Reply::Config(c)) => config_place(c, host, agent.tmux_session@) is Err
                ==> alive_next(agent, stage, reply) == StepView::<AliveStageView, bool>::Done(Ok(false)),
            _ => true,
        },
{
}

/// How far attaching is from done.
pub open spec fn attach_rank(stage: AttachStageView) -> nat {
    match stage {
        AttachStageView::Config { .. } => 4,
        AttachStageView::Check { .. } => 3,
        AttachStageView::Create { .. } => 2,
        AttachStageView::Attach { .. } => 1,
    }
}

/// Law: every reply to attaching finishes it, moves it closer to done, or leaves it as it
/// was; the session is made again only when the reply showed it missing, and attaching
/// comes only after the session was shown to exist or was made.
pub proof fn lemma_attach_to_agent(agent: Agent, command: Seq<char>, stage: AttachStage, reply: Reply)
    ensures
        match attach_next(agent, command, stage, reply) {
            StepView::Done(_) => true,
            StepView::Next(s2, a) => attach_rank(s2) < attach_rank(stage@) || (s2 == stage@ && a
                == attach_pending(command, s2)),
        },
        attach_next(agent, command, stage, reply) matches StepView::Next(AttachStageView::Create { place: p, .. }, _) ==> (
        stage@ is Create || match (stage, reply) {
            (AttachStage::Check { .. }, Reply::Session(r)) => exists_reply(place_local(p), r) == Some(false),
            _ => false,
        }),
        attach_next(agent, command, stage, reply) matches StepView::Next(AttachStageView::Attach { place: p }, _) ==> (
        stage@ is Attach || match (stage, reply) {
            (AttachStage::Check { .. }, Reply::Session(r)) => exists_reply(place_local(p), r) == Some(true),
            (AttachStage::Create { .. }, Reply::Session(r)) => done_reply(place_local(p), r) == Some(
                Ok::<(), GroveError>(()),
            ),
            _ => false,
        }),
{
}

/// How far restarting is from done.
pub open spec fn restart_rank(stage: RestartStageView) -> nat {
    match stage {
        RestartStageView::Config { .. } => 6,
        RestartStageView::Check { .. } => 5,
        RestartStageView::Create { .. } => 1,
        RestartStageView::Interrupt { .. } => 3,
        RestartStageView::Pause { .. } => 2,
        RestartStageView::Resend { .. } => 1,
    }
}

/// Law: every reply to restarting finishes it, moves it closer to done, or leaves it as it
/// was; the command is typed again only after the pause, and the pause only follows a
/// Ctrl-C that was carried out.
pub proof fn lemma_restart_agent(agent: Agent, command: Seq<char>, stage: RestartStage, reply: Reply)
    ensures
        match restart_next(agent, command, stage, reply) {
            StepView::Done(_) => true,
            StepView::Next(s2, a) => restart_rank(s2) < restart_rank(stage@) || (s2 == stage@
                && a == restart_pending(command, s2)),
        },
        restart_next(agent, command, stage, reply) matches StepView::Next(RestartStageView::Resend { .. }, _) ==> (
        stage@ is Resend || (stage is Pause && reply is Finished)),
        restart_next(agent, command, stage, reply) matches StepView::Next(RestartStageView::Pause { .. }, _) ==> (
        stage@ is Pause || stage is Interrupt),
{
}

/// How far deleting is from done.
pub open spec fn delete_rank(stage: DeleteStageView) -> nat {
    match stage {
        DeleteStageView::Config { .. } => 5,
        DeleteStageView::Check { .. } => 4,
        DeleteStageView::Kill { .. } => 3,
        DeleteStageView::CheckPath { .. } => 2,
        DeleteStageView::Remove { .. } => 1,
        DeleteStageView::Wipe { .. } => 1,
    }
}

/// Law: every reply to deleting finishes it, moves it closer to done, or leaves it as it
/// was; a local worktree is removed only after the reply showed that it exists, and a
/// session is ended only after the reply showed that it runs.
pub proof fn lemma_delete_agent(m: AgentManager, agent: Agent, stage: DeleteStage, reply: Reply)
    ensures
        match delete_next(m, agent, stage, reply) {
            StepView::Done(_) => true,
            StepView::Next(s2, a) => delete_rank(s2) < delete_rank(stage@) || (s2 == stage@ && a
                == delete_pending(m, s2)),
        },
        delete_next(m, agent, stage, reply) matches StepView::Next(DeleteStageView::Remove { path }, _) ==> (
        stage@ == DeleteStageView::Remove { path } || (stage@ == DeleteStageView::CheckPath { path }
            && reply == Reply::PathExists(true))),
        delete_next(m, agent, stage, reply) matches StepView::Next(DeleteStageView::Kill { place: p, .. }, _) ==> (
        stage@ is Kill || match (stage, reply) {
            (DeleteStage::Check { .. }, Reply::Session(r)) => exists_reply(place_local(p), r) == Some(true),
            _ => false,
        }),
{
}

/// How far creating a local agent is from done.
pub open spec fn create_rank(stage: CreateStageView) -> nat {
    match stage {
        CreateStageView::Worktree { .. } => 3,
        CreateStageView::Links { .. } => 2,
        CreateStageView::Start { .. } => 1,
    }
}

/// Law: every reply to creating a local agent finishes it, moves it closer to done, or
/// leaves it as it was; the agent's session is started in the worktree that was made,
/// under the name that its UUID gives, and the agent handed back is that agent.
pub proof fn lemma_create_agent(
    m: AgentManager,
    name: Seq<char>,
    branch: Seq<char>,
    command: Seq<char>,
    links: Seq<Seq<char>>,
    stage: CreateStage,
    reply: Reply,
)
    ensures
        match create_next(m, name, branch, command, links, stage, reply) {
            StepView::Done(_) => true,
            StepView::Next(s2, a) => create_rank(s2) < create_rank(stage@) || (s2 == stage@ && a
                == create_pending(m, branch, command, links, s2)),
        },
        match (stage, reply) {
            (CreateStage::Links { id, path }, Reply::Finished(Ok(()))) => create_next(
                m,
                name,
                branch,
                command,
                links,
                stage,
                reply,
            ) == StepView::<CreateStageView, AgentView>::Next(
                CreateStageView::Start { agent: local_agent(id, name, branch, path@) },
                ActionView::Session(
                    SessionTaskView::Local {
                        session: session_name_for(id),
                        op: TmuxOpView::Create { working_dir: path@, command },
                    },
                ),
            ),
            _ => true,
        },
        match (stage, create_next(m, name, branch, command, links, stage, reply)) {
            (CreateStage::Start { agent }, StepView::Done(Ok(a))) => a == agent@,
            _ => true,
        },
{
}

/// Law: every reply to creating a remote agent finishes it, moves it closer to done, or
/// leaves it as it was; the agent handed back runs on the configured host, in the remote
/// worktree that was prepared.
pub proof fn lemma_create_remote_agent(
    name: Seq<char>,
    branch: Seq<char>,
    command: Seq<char>,
    host: RemoteHost,
    stage: CreateRemoteStage,
    reply: Reply,
)
    ensures
        match create_remote_next(name, branch, command, host, stage, reply) {
            StepView::Done(_) => true,
            StepView::Next(s2, a) => (stage is Prepare && s2 is Start) || (s2 == stage@ && a
                == create_remote_pending(branch, command, s2)),
        },
        match (stage, create_remote_next(name, branch, command, host, stage, reply)) {
            (
                CreateRemoteStage::Prepare { id, path, .. },
                StepView::Next(CreateRemoteStageView::Start { agent, .. }, _),
            ) => agent == remote_agent(id, name, branch, path@, host.name@),
            _ => true,
        },
{
}


/// Law: a new remote agent's session runs the caller's assistant command. Once the remote
/// worktree is prepared, the next action starts the session `grove-<simple uuid>` in that
/// worktree on the same client and types `command` into it; whenever the job waits to
/// start the session, that is the command it waits on; and whenever it waits to prepare
/// the worktree, it waits on preparing it for `branch`.
pub proof fn lemma_create_remote_runs_command(
    name: Seq<char>,
    branch: Seq<char>,
    command: Seq<char>,
    host: RemoteHost,
    stage: CreateRemoteStage,
    reply: Reply,
)
    ensures
        match (stage, reply) {
            (CreateRemoteStage::Prepare { id, client, path }, Reply::Session(SessionReply::Ran(run))) =>
                exec_result(run) is Ok ==> create_remote_next(name, branch, command, host, stage, reply)
                    == StepView::<CreateRemoteStageView, AgentView>::Next(
                    CreateRemoteStageView::Start {
                        agent: remote_agent(id, name, branch, path@, host.name@),
                        client: client@,
                    },
                    ActionView::Session(
                        SessionTaskView::Remote {
                            client: client@,
                            command: create_line(session_name_for(id), path@, command),
                        },
                    ),
                ),
            _ => true,
        },
        match create_remote_next(name, branch, command, host, stage, reply) {
            StepView::Next(CreateRemoteStageView::Start { agent, client }, a) => a == ActionView::Session(
                SessionTaskView::Remote {
                    client,
                    command: create_line(agent.tmux_session, agent.worktree_path, command),
                },
            ),
            StepView::Next(CreateRemoteStageView::Prepare { client, path, .. }, a) => a
                == ActionView::Session(
                SessionTaskView::Remote { client, command: prepare_line(path, branch) },
            ),
            StepView::Done(Ok(a)) => stage is Start && a == match stage {
                CreateRemoteStage::Start { agent, .. } => agent@,
                _ => a,
            },
            _ => true,
        },
{
}

/// Law: deleting an agent removes its worktree after ending its session. Once a running
/// session has been ended, a remote agent's next action is `rm -rf <remote worktree>` on
/// the same client, and a local agent's is a look at whether its worktree exists; a
/// session found not running leads to the same. The job succeeds only from the last
/// stages: a remote worktree deleted, or a local one removed or found absent.
pub proof fn lemma_delete_removes_worktree(m: AgentManager, agent: Agent, stage: DeleteStage, reply: Reply)
    ensures
        match (stage, reply) {
            (DeleteStage::Kill { place, path }, Reply::Session(r)) => done_reply(place_local(place@), r)
                == Some(Ok::<(), GroveError>(())) ==> delete_next(m, agent, stage, reply) == match place@ {
                PlaceView::Remote { client, .. } => StepView::<DeleteStageView, ()>::Next(
                    DeleteStageView::Wipe { client, path: path@ },
                    ActionView::Session(
                        SessionTaskView::Remote { client, command: "rm -rf "@ + path@ },
                    ),
                ),
                PlaceView::Local { .. } => StepView::<DeleteStageView, ()>::Next(
                    DeleteStageView::CheckPath { path: path@ },
                    ActionView::PathExists { path: path@ },
                ),
            },
            (DeleteStage::Check { place, path }, Reply::Session(r)) => exists_reply(place_local(place@), r)
                == Some(false) ==> delete_next(m, agent, stage, reply) == match place@ {
                PlaceView::Remote { client, .. } => StepView::<DeleteStageView, ()>::Next(
                    DeleteStageView::Wipe { client, path: path@ },
                    ActionView::Session(
                        SessionTaskView::Remote { client, command: "rm -rf "@ + path@ },
                    ),
                ),
                PlaceView::Local { .. } => StepView::<DeleteStageView, ()>::Next(
                    DeleteStageView::CheckPath { path: path@ },
                    ActionView::PathExists { path: path@ },
                ),
            },
            _ => true,
        },
        delete_next(m, agent, stage, reply) matches StepView::Done(Ok(_)) ==> (stage is Wipe
            || (stage is CheckPath && reply == Reply::PathExists(false)) || stage is Remove),
        match delete_next(m, agent, stage, reply) {
            StepView::Next(DeleteStageView::Wipe { client, path }, a) => a == ActionView::Session(
                SessionTaskView::Remote { client, command: "rm -rf "@ + path },
            ),
            _ => true,
        },
{
}

/// Law: restarting makes a missing session again. When the reply shows the session
/// missing, the next action creates it in the agent's worktree running `command`; when it
/// shows the session running, the next stage interrupts it. The job succeeds only after a
/// successful creation or a successful retyping of the command.
pub proof fn lemma_restart_recreates_missing_session(
    agent: Agent,
    command: Seq<char>,
    stage: RestartStage,
    reply: Reply,
)
    ensures
        match (stage, reply) {
            (RestartStage::Check { place, dir }, Reply::Session(r)) => {
                &&& exists_reply(place_local(place@), r) == Some(false) ==> restart_next(
                    agent,
                    command,
                    stage,
                    reply,
                ) == StepView::<RestartStageView, ()>::Next(
                    RestartStageView::Create { place: place@, dir: dir@ },
                    ActionView::Session(
                        place_task(place@, TmuxOpView::Create { working_dir: dir@, command }),
                    ),
                )
                &&& exists_reply(place_local(place@), r) == Some(true) ==> (restart_next(
                    agent,
                    command,
                    stage,
                    reply,
                ) matches StepView::Next(RestartStageView::Interrupt { place: p }, _) && p == place@)
            },
            _ => true,
        },
        match restart_next(agent, command, stage, reply) {
            StepView::Done(Ok(_)) => match (stage, reply) {
                (RestartStage::Create { place, .. }, Reply::Session(r)) => done_reply(place_local(place@), r)
                    == Some(Ok::<(), GroveError>(())),
                (RestartStage::Resend { place }, Reply::Session(r)) => done_reply(place_local(place@), r)
                    == Some(Ok::<(), GroveError>(())),
                _ => false,
            },
            _ => true,
        },
{
}

/// Law: attaching ends in attaching. After the missing session was made again, the next
/// action attaches to it; the job succeeds only when attaching itself succeeded.
pub proof fn lemma_attach_after_create(agent: Agent, command: Seq<char>, stage: AttachStage, reply: Reply)
    ensures
        match (stage, reply) {
            (AttachStage::Create { place, .. }, Reply::Session(r)) => done_reply(place_local(place@), r)
                == Some(Ok::<(), GroveError>(())) ==> attach_next(agent, command, stage, reply)
                == StepView::<AttachStageView, ()>::Next(
                AttachStageView::Attach { place: place@ },
                ActionView::Session(place_task(place@, TmuxOpView::Attach)),
            ),
            _ => true,
        },
        match attach_next(agent, command, stage, reply) {
            StepView::Done(Ok(_)) => match (stage, reply) {
                (AttachStage::Attach { place }, Reply::Session(r)) => done_reply(place_local(place@), r)
                    == Some(Ok::<(), GroveError>(())),
                _ => false,
            },
            _ => true,
        },
{
}

/// Law: a session is alive exactly when the reply says it exists. The answer `true` comes
/// only from a reply that showed the session to exist, and a reply that shows whether it
/// exists is the answer.
pub proof fn lemma_alive_is_existence(agent: Agent, stage: AliveStage, reply: Reply)
    ensures
        match (stage, reply) {
            (AliveStage::Check { place }, Reply::Session(r)) => match exists_reply(place_local(place@), r) {
                Some(b) => alive_next(agent, stage, reply) == StepView::<AliveStageView, bool>::Done(Ok(b)),
                None => true,
            },
            _ => true,
        },
        alive_next(agent, stage, reply) == StepView::<AliveStageView, bool>::Done(Ok(true)) ==> match (
            stage,
            reply,
        ) {
            (AliveStage::Check { place }, Reply::Session(r)) => exists_reply(place_local(place@), r) == Some(
                true,
            ),
            _ => false,
        },
{
}

/// Law: each action of sending input carries the caller's input: the job asks whether the
/// session exists, then types exactly `input` (with Enter) into that session.
pub proof fn lemma_send_input_actions(agent: Agent, input: Seq<char>, stage: SendStage, reply: Reply)
    ensures
        match send_next(agent, input, stage, reply) {
            StepView::Next(SendStageView::Config { .. }, a) => a == ActionView::LoadConfig,
            StepView::Next(SendStageView::Check { place }, a) => a == ActionView::Session(
                place_task(place, TmuxOpView::Exists),
            ),
            StepView::Next(SendStageView::Send { place }, a) => a == ActionView::Session(
                place_task(place, TmuxOpView::SendKeys { keys: input }),
            ),
            StepView::Done(Ok(_)) => match (stage, reply) {
                (SendStage::Send { place }, Reply::Session(r)) => done_reply(place_local(place@), r)
                    == Some(Ok::<(), GroveError>(())),
                _ => false,
            },
            _ => true,
        },
{
}

/// Law: a capture asks for exactly `lines` lines of the session's pane, and the text it
/// gives back is either what that capture gave or, for a session shown missing, nothing.
pub proof fn lemma_capture_output_actions(agent: Agent, lines: usize, stage: CaptureStage, reply: Reply)
    ensures
        match capture_next(agent, lines, stage, reply) {
            StepView::Next(CaptureStageView::Check { place }, a) => a == ActionView::Session(
                place_task(place, TmuxOpView::Exists),
            ),
            StepView::Next(CaptureStageView::Capture { place }, a) => a == ActionView::Session(
                place_task(place, TmuxOpView::CapturePane { lines }),
            ),
            StepView::Done(Ok(t)) => match (stage, reply) {
                (CaptureStage::Capture { place }, Reply::Session(r)) => text_reply(place_local(place@), r)
                    == Some(Ok::<Seq<char>, GroveError>(t)),
                (CaptureStage::Check { place }, Reply::Session(r)) => exists_reply(place_local(place@), r)
                    == Some(false) && t.len() == 0,
                _ => false,
            },
            _ => true,
        },
{
}

/// Law: attaching makes a missing session in the agent's own worktree (the local one here,
/// the remote one on a host) running `command`, and its last action attaches to the session.
pub proof fn lemma_attach_actions(agent: Agent, command: Seq<char>, stage: AttachStage, reply: Reply)
    ensures
        match attach_next(agent, command, stage, reply) {
            StepView::Next(AttachStageView::Create { place, dir }, a) => a == ActionView::Session(
                place_task(place, TmuxOpView::Create { working_dir: dir, command }),
            ) && (stage is Check ==> (place_local(place) ==> dir == agent.worktree_path@) && (
            !place_local(place) ==> (agent.remote_worktree_path matches Some(d) && dir == d@))),
            StepView::Next(AttachStageView::Attach { place }, a) => a == ActionView::Session(
                place_task(place, TmuxOpView::Attach),
            ),
            _ => true,
        },
{
}

/// Law: each action of restarting carries the caller's command: a missing session is made
/// in the agent's worktree running `command`; a running one gets the interrupt key
/// (`tmux send-keys -t <session> C-c`, never typed letters), a pause of 100 ms, and then
/// `command` typed again into the same session.
pub proof fn lemma_restart_actions(agent: Agent, command: Seq<char>, stage: RestartStage, reply: Reply)
    ensures
        match restart_next(agent, command, stage, reply) {
            StepView::Next(RestartStageView::Create { place, dir }, a) => a == ActionView::Session(
                place_task(place, TmuxOpView::Create { working_dir: dir, command }),
            ),
            StepView::Next(RestartStageView::Interrupt { place }, a) => a == match place {
                PlaceView::Local { session } => ActionView::Process {
                    program: "tmux"@,
                    args: seq!["send-keys"@, "-t"@, session, "C-c"@],
                },
                PlaceView::Remote { client, session } => ActionView::Session(
                    SessionTaskView::Remote {
                        client,
                        command: "tmux send-keys -t '"@ + session + "' C-c"@,
                    },
                ),
            },
            StepView::Next(RestartStageView::Pause { .. }, a) => a == ActionView::Sleep { millis: 100 },
            StepView::Next(RestartStageView::Resend { place }, a) => a == ActionView::Session(
                place_task(place, TmuxOpView::SendKeys { keys: command }),
            ),
            StepView::Next(RestartStageView::Check { place, dir }, a) => a == ActionView::Session(
                place_task(place, TmuxOpView::Exists),
            ) && (stage is Config ==> (agent.remote_worktree_path matches Some(d) && dir == d@)),
            _ => true,
        },
{
    assert forall|name: Seq<char>| #[trigger] interrupt_line(name) == "tmux send-keys -t '"@ + name
        + "' C-c"@ by {
        reveal_strlit("tmux ");
        reveal_strlit("send-keys");
        reveal_strlit(" -t '");
        reveal_strlit("'");
        reveal_strlit(" C-c");
        reveal_strlit("tmux send-keys -t '");
        reveal_strlit("' C-c");
        assert(interrupt_line(name) =~= "tmux send-keys -t '"@ + name + "' C-c"@);
    }
}

/// Law: creating a local agent makes a worktree of the manager's repository for `branch`,
/// links `links` into it, and starts the agent's session in that worktree running
/// `command`; the agent handed back is named `name`, is on `branch`, lives in that
/// worktree, and its session is named after its UUID.
pub proof fn lemma_create_agent_actions(
    m: AgentManager,
    name: Seq<char>,
    branch: Seq<char>,
    command: Seq<char>,
    links: Seq<Seq<char>>,
    stage: CreateStage,
    reply: Reply,
)
    ensures
        match create_next(m, name, branch, command, links, stage, reply) {
            StepView::Next(CreateStageView::Worktree { .. }, a) => a == ActionView::CreateWorktree {
                repo_path: m.repo_path@,
                worktree_base: m.worktree_base@,
                branch,
            },
            StepView::Next(CreateStageView::Links { path, .. }, a) => a == ActionView::CreateSymlinks {
                repo_path: m.repo_path@,
                worktree_base: m.worktree_base@,
                worktree_path: path,
                links,
            },
            StepView::Next(CreateStageView::Start { agent }, a) => a == ActionView::Session(
                SessionTaskView::Local {
                    session: agent.tmux_session,
                    op: TmuxOpView::Create { working_dir: agent.worktree_path, command },
                },
            ) && (stage is Links ==> agent.name == name && agent.branch == branch
                && agent.tmux_session == session_name_for(agent.id) && agent.remote_host is None
                && match stage {
                CreateStage::Links { id, path } => agent.id == id && agent.worktree_path == path@,
                _ => true,
            }),
            _ => true,
        },
{
}

/// Law: each action of deleting carries the agent's own session and worktree: the session
/// is asked after and ended, a local worktree is looked for and removed from the manager's
/// repository, and a remote one is deleted with `rm -rf`.
pub proof fn lemma_delete_actions(m: AgentManager, agent: Agent, stage: DeleteStage, reply: Reply)
    ensures
        match delete_next(m, agent, stage, reply) {
            StepView::Next(DeleteStageView::Check { place, .. }, a) => a == ActionView::Session(
                place_task(place, TmuxOpView::Exists),
            ),
            StepView::Next(DeleteStageView::Kill { place, .. }, a) => a == ActionView::Session(
                place_task(place, TmuxOpView::Kill),
            ),
            StepView::Next(DeleteStageView::CheckPath { path }, a) => a == ActionView::PathExists { path },
            StepView::Next(DeleteStageView::Remove { path }, a) => a == ActionView::RemoveWorktree {
                repo_path: m.repo_path@,
                worktree_base: m.worktree_base@,
                path,
            },
            _ => true,
        },
{
}

} // verus!
