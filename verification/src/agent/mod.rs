//! Agents: a coding assistant running in a tmux session on a git worktree, here or on a
//! remote host.
use vstd::prelude::*;

pub mod manager;

use crate::text::{chars_of, digit_char, push_char, string_of, to_owned};

verus! {

/// An agent, as plain values.
pub struct AgentView {
    pub id: u128,
    pub name: Seq<char>,
    pub branch: Seq<char>,
    pub worktree_path: Seq<char>,
    pub tmux_session: Seq<char>,
    pub remote_host: Option<Seq<char>>,
    pub remote_worktree_path: Option<Seq<char>>,
}

/// A coding agent.
#[derive(Debug)]
pub struct Agent {
    /// The agent's UUID, as its 128-bit value.
    pub id: u128,
    pub name: String,
    pub branch: String,
    /// The worktree the agent works in (on this machine).
    pub worktree_path: String,
    /// The tmux session the agent runs in.
    pub tmux_session: String,
    /// The configured host the agent runs on, for a remote agent.
    pub remote_host: Option<String>,
    /// The worktree on the remote host, for a remote agent.
    pub remote_worktree_path: Option<String>,
}

impl View for Agent {
    type V = AgentView;

    open spec fn view(&self) -> AgentView {
        AgentView {
            id: self.id,
            name: self.name@,
            branch: self.branch@,
            worktree_path: self.worktree_path@,
            tmux_session: self.tmux_session@,
            remote_host: crate::ssh::opt_view(self.remote_host),
            remote_worktree_path: crate::ssh::opt_view(self.remote_worktree_path),
        }
    }
}

/// A hexadecimal digit, lower case.
pub open spec fn hex_char(d: nat) -> char {
    if d < 10 {
        digit_char(d)
    } else if d == 10 {
        'a'
    } else if d == 11 {
        'b'
    } else if d == 12 {
        'c'
    } else if d == 13 {
        'd'
    } else if d == 14 {
        'e'
    } else {
        'f'
    }
}

/// The last `n` hexadecimal digits of `v`, most significant first, with leading zeros.
pub open spec fn hex_digits(v: nat, n: nat) -> Seq<char>
    decreases n,
{
    if n == 0 {
        seq![]
    } else {
        hex_digits(v / 16, (n - 1) as nat).push(hex_char(v % 16))
    }
}

/// A UUID in its simple form: 32 lower-case hexadecimal digits.
pub open spec fn simple_uuid(id: u128) -> Seq<char> {
    hex_digits(id as nat, 32)
}

/// A UUID in its hyphenated form: digits 8-4-4-4-12.
pub open spec fn hyphenated_uuid(id: u128) -> Seq<char> {
    let d = simple_uuid(id);
    d.subrange(0, 8) + seq!['-'] + d.subrange(8, 12) + seq!['-'] + d.subrange(12, 16) + seq!['-']
        + d.subrange(16, 20) + seq!['-'] + d.subrange(20, 32)
}

/// The tmux session of the agent with UUID `id`.
pub open spec fn session_name_for(id: u128) -> Seq<char> {
    "grove-"@ + simple_uuid(id)
}

/// A version 4 (random) UUID of the RFC 9562 variant: version bits 0100, variant bits 10.
pub open spec fn is_v4(id: u128) -> bool {
    (id >> 76u128) & 0xfu128 == 4 && (id >> 62u128) & 3u128 == 2
}

/// A new random agent UUID, as its 128-bit value (`uuid::Uuid::new_v4`). Its bits are
/// random but for the version and variant bits, which every outcome has; nothing more is
/// stated of it.
#[verifier::external_body]
pub(crate) fn new_agent_id() -> (r: u128)
    ensures
        is_v4(r),
{
    uuid::Uuid::new_v4().as_u128()
}

fn hex(d: u128) -> (c: char)
    requires
        d < 16,
    ensures
        c == hex_char(d as nat),
{
    if d == 0 { '0' }
    else if d == 1 { '1' }
    else if d == 2 { '2' }
    else if d == 3 { '3' }
    else if d == 4 { '4' }
    else if d == 5 { '5' }
    else if d == 6 { '6' }
    else if d == 7 { '7' }
    else if d == 8 { '8' }
    else if d == 9 { '9' }
    else if d == 10 { 'a' }
    else if d == 11 { 'b' }
    else if d == 12 { 'c' }
    else if d == 13 { 'd' }
    else if d == 14 { 'e' }
    else { 'f' }
}

fn push_hex(out: &mut String, v: u128, n: u32)
    ensures
        final(out)@ == old(out)@ + hex_digits(v as nat, n as nat),
    decreases n,
{
    if n > 0 {
        push_hex(out, v / 16, n - 1);
        push_char(out, hex(v % 16));
        assert(old(out)@ + hex_digits(v as nat, n as nat) =~= old(out)@ + hex_digits(
            (v / 16) as nat,
            (n - 1) as nat,
        ) + seq![hex_char((v % 16) as nat)]);
    }
}

/// The simple form of UUID `id` (`Uuid::as_simple`).
pub fn simple_id(id: u128) -> (r: String)
    ensures
        r@ == simple_uuid(id),
{
    let mut r = String::new();
    push_hex(&mut r, id, 32);
    assert(r@ =~= simple_uuid(id));
    r
}

/// The hyphenated form of UUID `id` (`Uuid::to_string`).
pub fn hyphenated_id(id: u128) -> (r: String)
    ensures
        r@ == hyphenated_uuid(id),
{
    let s = simple_id(id);
    let d = chars_of(s.as_str());
    assert(d.len() == 32) by {
        lemma_hex_digits_len(id as nat, 32);
    }
    let mut r = string_of(&d, 0, 8);
    push_char(&mut r, '-');
    r.append(string_of(&d, 8, 12).as_str());
    push_char(&mut r, '-');
    r.append(string_of(&d, 12, 16).as_str());
    push_char(&mut r, '-');
    r.append(string_of(&d, 16, 20).as_str());
    push_char(&mut r, '-');
    r.append(string_of(&d, 20, 32).as_str());
    r
}

proof fn lemma_hex_digits_len(v: nat, n: nat)
    ensures
        hex_digits(v, n).len() == n,
    decreases n,
{
    if n > 0 {
        lemma_hex_digits_len(v / 16, (n - 1) as nat);
    }
}

/// The tmux session name of the agent with UUID `id`: `grove-` and the UUID's simple form.
pub fn session_name(id: u128) -> (r: String)
    ensures
        r@ == session_name_for(id),
{
    let mut r = to_owned("grove-");
    let s = simple_id(id);
    r.append(s.as_str());
    r
}

impl Agent {
    /// A local agent with UUID `id`, working in `worktree_path`, running in the tmux session
    /// named after its UUID.
    pub fn new(id: u128, name: &str, branch: &str, worktree_path: &str) -> (r: Agent)
        ensures
            r@ == (AgentView {
                id,
                name: name@,
                branch: branch@,
                worktree_path: worktree_path@,
                tmux_session: session_name_for(id),
                remote_host: None,
                remote_worktree_path: None,
            }),
    {
        Agent {
            id,
            name: to_owned(name),
            branch: to_owned(branch),
            worktree_path: to_owned(worktree_path),
            tmux_session: session_name(id),
            remote_host: None,
            remote_worktree_path: None,
        }
    }

    /// Whether the agent runs on a remote host.
    pub fn is_remote(&self) -> (r: bool)
        ensures
            r == self.remote_host is Some,
    {
        self.remote_host.is_some()
    }
}

} // verus!
