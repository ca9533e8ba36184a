//! SSH clients: who to connect to, how to authenticate, and what the outcome of a remote
//! command means. The connection itself is made by the caller, which hands each outcome
//! back to the functions here.
use std::sync::Arc;
use vstd::prelude::*;

pub mod remote;

pub use remote::RemoteTmuxSession;



use crate::config::RemoteHost;
use crate::error::GroveError;
use crate::text::{
    contains, decimal, has_substring, push_char, push_decimal, to_owned, trim, trimmed,
};

verus! {

/// What a client is made of, as plain values.
pub struct SshClientView {
    pub host: Seq<char>,
    pub user: Seq<char>,
    pub port: u16,
    pub identity_file: Option<Seq<char>>,
}

/// The view of an optional string.
pub open spec fn opt_view(o: Option<String>) -> Option<Seq<char>> {
    match o {
        Some(s) => Some(s@),
        None => None,
    }
}

/// The client that a configured host describes.
pub open spec fn host_client(h: RemoteHost) -> SshClientView {
    SshClientView { host: h.host@, user: h.user@, port: h.port, identity_file: opt_view(h.identity_file) }
}

/// A remote host to run commands on, and the credentials to log in with.
#[derive(Debug, Clone)]
pub struct SshClient {
    host: String,
    user: String,
    port: u16,
    identity_file: Option<String>,
}

impl View for SshClient {
    type V = SshClientView;

    closed spec fn view(&self) -> SshClientView {
        SshClientView {
            host: self.host@,
            user: self.user@,
            port: self.port,
            identity_file: opt_view(self.identity_file),
        }
    }
}

/// What running one command on a remote host gave back: its standard output, its standard
/// error and its exit status.
#[derive(Debug)]
pub struct CommandOutput {
    pub stdout: String,
    pub stderr: String,
    pub exit_code: i32,
}

impl CommandOutput {
    /// Whether the command exited with status 0.
    pub fn success(&self) -> (r: bool)
        ensures
            r == (self.exit_code == 0),
    {
        self.exit_code == 0
    }
}

/// How a client proves who it is.
#[derive(Debug)]
pub enum AuthMethod {
    /// With the private key in `key_path`.
    PublicKey { user: String, key_path: String },
    /// With the keys that the running SSH agent holds.
    Agent { user: String },
}

/// The outcome of running a command: what the command gave back, or the transport error
/// (connection, handshake, authentication, channel) that stopped it.
pub open spec fn exec_result(run: Result<CommandOutput, String>) -> Result<Seq<char>, GroveError> {
    match run {
        Err(m) => Err(GroveError::Ssh(m)),
        Ok(o) => if o.exit_code != 0 {
            Err(GroveError::CommandFailed { status: o.exit_code, output: o.stdout })
        } else {
            Ok(o.stdout@)
        },
    }
}

/// The substrings of a connection test's standard error that mean the host is unreachable.
pub open spec fn unreachable_text(stderr: Seq<char>) -> bool {
    ||| has_substring(stderr, "connection refused"@)
    ||| has_substring(stderr, "no route to host"@)
    ||| has_substring(stderr, "connection timed out"@)
}

impl SshClient {
    /// A client for `user@host:port`, authenticating with `identity_file` if one is given.
    pub fn new(host: &str, user: &str, port: u16, identity_file: Option<&str>) -> (r: Self)
        ensures
            r@ == (SshClientView {
                host: host@,
                user: user@,
                port,
                identity_file: match identity_file {
                    Some(p) => Some(p@),
                    None => None,
                },
            }),
    {
        let identity_file = match identity_file {
            Some(p) => Some(to_owned(p)),
            None => None,
        };
        SshClient { host: to_owned(host), user: to_owned(user), port, identity_file }
    }

    /// The client for a configured host.
    pub fn from_config(host_config: &RemoteHost) -> (r: Result<Self, GroveError>)
        ensures
            r matches Ok(c) && c@ == host_client(*host_config),
    {
        let identity_file = match &host_config.identity_file {
            Some(p) => Some(p.as_str()),
            None => None,
        };
        Ok(
            Self::new(
                host_config.host.as_str(),
                host_config.user.as_str(),
                host_config.port,
                identity_file,
            ),
        )
    }

    /// Another client for the same host and credentials.
    pub fn duplicate(&self) -> (r: Self)
        ensures
            r@ == self@,
    {
        let identity_file = match &self.identity_file {
            Some(p) => Some(p.as_str()),
            None => None,
        };
        Self::new(self.host.as_str(), self.user.as_str(), self.port, identity_file)
    }

    /// The host name.
    pub fn host(&self) -> (r: &str)
        ensures
            r@ == self@.host,
    {
        self.host.as_str()
    }

    /// The user name.
    pub fn user(&self) -> (r: &str)
        ensures
            r@ == self@.user,
    {
        self.user.as_str()
    }

    /// The port.
    pub fn port(&self) -> (r: u16)
        ensures
            r == self@.port,
    {
        self.port
    }

    /// The `host:port` address to open the TCP connection to.
    pub fn address(&self) -> (r: String)
        ensures
            r@ == self@.host + seq![':'] + decimal(self@.port as nat),
    {
        let mut r = to_owned(self.host.as_str());
        push_char(&mut r, ':');
        push_decimal(&mut r, self.port as u64);
        r
    }

    /// How to authenticate: with the key file if there is one, else with the SSH agent if
    /// one is running (`agent_available`), else not at all.
    pub fn auth_method(&self, agent_available: bool) -> (r: Result<AuthMethod, GroveError>)
        ensures
            match self@.identity_file {
                Some(p) => r matches Ok(AuthMethod::PublicKey { user, key_path }) && user@
                    == self@.user && key_path@ == p,
                None => if agent_available {
                    r matches Ok(AuthMethod::Agent { user }) && user@ == self@.user
                } else {
                    r == Err::<AuthMethod, GroveError>(GroveError::NoAuthMethod)
                },
            },
    {
        match &self.identity_file {
            Some(p) => Ok(
                AuthMethod::PublicKey {
                    user: to_owned(self.user.as_str()),
                    key_path: to_owned(p.as_str()),
                },
            ),
            None => if agent_available {
                Ok(AuthMethod::Agent { user: to_owned(self.user.as_str()) })
            } else {
                Err(GroveError::NoAuthMethod)
            },
        }
    }

    /// The verdict after authenticating: whether the server now counts the session as
    /// authenticated.
    pub fn confirm_authenticated(authenticated: bool) -> (r: Result<(), GroveError>)
        ensures
            r == (if authenticated {
                Ok::<(), GroveError>(())
            } else {
                Err(GroveError::AuthFailed)
            }),
    {
        if authenticated {
            Ok(())
        } else {
            Err(GroveError::AuthFailed)
        }
    }

    /// What running a command gives: its standard output when it exits with 0, else an
    /// error with its status and output.
    pub fn execute(&self, run: Result<CommandOutput, String>) -> (r: Result<String, GroveError>)
        ensures
            match (r, exec_result(run)) {
                (Ok(s), Ok(t)) => s@ == t,
                (Err(e), Err(f)) => e == f,
                _ => false,
            },
    {
        match run {
            Err(m) => Err(GroveError::Ssh(m)),
            Ok(o) => if o.exit_code != 0 {
                Err(GroveError::CommandFailed { status: o.exit_code, output: o.stdout })
            } else {
                Ok(o.stdout)
            },
        }
    }

    /// What running a command gives together with its exit status, whatever the status.
    pub fn execute_with_exit_code(&self, run: Result<CommandOutput, String>) -> (r: Result<
        (String, i32),
        GroveError,
    >)
        ensures
            match run {
                Err(m) => r == Err::<(String, i32), GroveError>(GroveError::Ssh(m)),
                Ok(o) => r matches Ok((s, c)) && s@ == o.stdout@ && c == o.exit_code,
            },
    {
        match run {
            Err(m) => Err(GroveError::Ssh(m)),
            Ok(o) => Ok((o.stdout, o.exit_code)),
        }
    }

    /// Standard output and standard error of a command; an error when it exited with a
    /// non-zero status and wrote to standard error.
    pub fn capture(&self, run: Result<CommandOutput, String>) -> (r: Result<(String, String), GroveError>)
        ensures
            match run {
                Err(m) => r == Err::<(String, String), GroveError>(GroveError::Ssh(m)),
                Ok(o) => if o.exit_code != 0 && o.stderr@.len() > 0 {
                    r == Err::<(String, String), GroveError>(
                        GroveError::CommandFailed { status: o.exit_code, output: o.stderr },
                    )
                } else {
                    r matches Ok((out, err)) && out@ == o.stdout@ && err@ == o.stderr@
                },
            },
    {
        match run {
            Err(m) => Err(GroveError::Ssh(m)),
            Ok(o) => {
                let empty = o.stderr.as_str().is_empty();
                if o.exit_code != 0 && !empty {
                    Err(GroveError::CommandFailed { status: o.exit_code, output: o.stderr })
                } else {
                    Ok((o.stdout, o.stderr))
                }
            },
        }
    }

    /// Everything a command gave back, whatever its exit status.
    pub fn capture_output(&self, run: Result<CommandOutput, String>) -> (r: Result<CommandOutput, GroveError>)
        ensures
            match run {
                Err(m) => r == Err::<CommandOutput, GroveError>(GroveError::Ssh(m)),
                Ok(o) => r == Ok::<CommandOutput, GroveError>(o),
            },
    {
        match run {
            Err(m) => Err(GroveError::Ssh(m)),
            Ok(o) => Ok(o),
        }
    }

    /// The command that tests the connection.
    pub fn test_connection_command() -> (r: &'static str)
        ensures
            r@ == "echo 'SSH connection test'"@,
    {
        "echo 'SSH connection test'"
    }

    /// The verdict of the connection test, from what running `test_connection_command` gave:
    /// an error when the command failed, or when its standard error says that the host
    /// refused, could not be routed to or timed out.
    pub fn test_connection(&self, run: Result<CommandOutput, String>) -> (r: Result<(), GroveError>)
        ensures
            match run {
                Err(m) => r == Err::<(), GroveError>(GroveError::Ssh(m)),
                Ok(o) => if o.exit_code != 0 && o.stderr@.len() > 0 {
                    r == Err::<(), GroveError>(
                        GroveError::CommandFailed { status: o.exit_code, output: o.stderr },
                    )
                } else if unreachable_text(o.stderr@) {
                    r matches Err(GroveError::ConnectFailed { host, stderr }) && host@ == self@.host
                        && stderr@ == o.stderr@
                } else {
                    r == Ok::<(), GroveError>(())
                },
            },
    {
        let (_, stderr) = match self.capture(run) {
            Ok(p) => p,
            Err(e) => return Err(e),
        };
        if contains(stderr.as_str(), "connection refused") || contains(
            stderr.as_str(),
            "no route to host",
        ) || contains(stderr.as_str(), "connection timed out") {
            return Err(
                GroveError::ConnectFailed { host: to_owned(self.host.as_str()), stderr },
            );
        }
        Ok(())
    }

    /// The command that looks for tmux on the host.
    pub fn check_tmux_command() -> (r: &'static str)
        ensures
            r@ == "which tmux 2>/dev/null || echo ''"@,
    {
        "which tmux 2>/dev/null || echo ''"
    }

    /// Whether tmux is on the host, from what running `check_tmux_command` gave: whether
    /// its output holds anything but white space.
    pub fn check_tmux_available(&self, run: Result<CommandOutput, String>) -> (r: Result<bool, GroveError>)
        ensures
            match run {
                Err(m) => r == Err::<bool, GroveError>(GroveError::Ssh(m)),
                Ok(o) => r == Ok::<bool, GroveError>(trimmed(o.stdout@).len() > 0),
            },
    {
        let (output, _) = match self.execute_with_exit_code(run) {
            Ok(p) => p,
            Err(e) => return Err(e),
        };
        let t = trim(output.as_str());
        Ok(!t.as_str().is_empty())
    }
}


/// `Arc::clone`: another handle to the same client.
#[verifier::external_body]
fn share<T>(a: &Arc<T>) -> (r: Arc<T>)
    ensures
        r == *a,
{
    Arc::clone(a)
}

/// The key under which a pool keeps the client for `user@host:port`.
pub open spec fn pool_key(user: Seq<char>, host: Seq<char>, port: u16) -> Seq<char> {
    user + seq!['@'] + host + seq![':'] + decimal(port as nat)
}

/// `user@host:port`.
pub fn pool_key_of(user: &str, host: &str, port: u16) -> (r: String)
    ensures
        r@ == pool_key(user@, host@, port),
{
    let mut r = to_owned(user);
    push_char(&mut r, '@');
    r.append(host);
    push_char(&mut r, ':');
    push_decimal(&mut r, port as u64);
    r
}

/// The key of a configured host in a pool.
pub open spec fn config_key(h: RemoteHost) -> Seq<char> {
    pool_key(h.user@, h.host@, h.port)
}

/// The client that a pool with `entries` hands out for host `h`: the one it keeps under
/// the host's key, else a new client for the host.
pub open spec fn pooled_client(entries: Map<Seq<char>, SshClientView>, h: RemoteHost) -> SshClientView {
    if entries.contains_key(config_key(h)) {
        entries[config_key(h)]
    } else {
        host_client(h)
    }
}

/// A pool's entries after it handed out the client for host `h`: unchanged when it kept
/// one under the host's key, else with the new client added under that key.
pub open spec fn pool_after_get(entries: Map<Seq<char>, SshClientView>, h: RemoteHost) -> Map<Seq<char>, SshClientView> {
    if entries.contains_key(config_key(h)) {
        entries
    } else {
        entries.insert(config_key(h), host_client(h))
    }
}

/// Clients shared between callers, one per `user@host:port`.
///
/// The clients are kept in a `Vec` whose keys are distinct, not in a `HashMap`: vstd
/// states what a `HashMap` holds only for key types whose hashing it models (`bool`,
/// the integer types and boxes of them), which leaves out `String` keys, so nothing could be
/// proved of a `HashMap<String, _>` pool's contents.
#[derive(Debug)]
pub struct ConnectionPool {
    clients: Vec<(String, Arc<SshClient>)>,
}

impl ConnectionPool {
    /// No key occurs twice.
    #[verifier::type_invariant]
    spec fn keys_distinct(self) -> bool {
        forall|i: int, j: int|
            0 <= i < j < self.clients.len() ==> #[trigger] self.clients[i].0@ != #[trigger] self.clients[j].0@
    }

    /// The pool holds a client under `k`.
    pub closed spec fn has_key(self, k: Seq<char>) -> bool {
        exists|i: int| 0 <= i < self.clients.len() && #[trigger] self.clients[i].0@ == k
    }

    /// The clients by key.
    pub closed spec fn entries(self) -> Map<Seq<char>, SshClientView> {
        Map::new(
            |k: Seq<char>| self.has_key(k),
            |k: Seq<char>|
                self.clients[choose|i: int|
                    0 <= i < self.clients.len() && #[trigger] self.clients[i].0@ == k].1@,
        )
    }

    proof fn lemma_entry_at(self, i: int)
        requires
            self.keys_distinct(),
            0 <= i < self.clients.len(),
        ensures
            self.entries().contains_key(self.clients[i].0@),
            self.entries()[self.clients[i].0@] == self.clients[i].1@,
    {
        let k = self.clients[i].0@;
        assert(self.has_key(k));
        let j = choose|j: int| 0 <= j < self.clients.len() && #[trigger] self.clients[j].0@ == k;
        if j != i {
            if j < i {
                assert(self.clients[j].0@ != self.clients[i].0@);
            } else {
                assert(self.clients[i].0@ != self.clients[j].0@);
            }
        }
    }

    /// An empty pool.
    pub fn new() -> (r: Self)
        ensures
            r.entries() == Map::<Seq<char>, SshClientView>::empty(),
    {
        let r = ConnectionPool { clients: Vec::new() };
        assert(r.entries() =~= Map::<Seq<char>, SshClientView>::empty());
        r
    }

    /// The position of the client kept under `key`, if any.
    fn find(&self, key: &str) -> (r: Option<usize>)
        ensures
            r matches Some(i) ==> i < self.clients.len() && self.clients[i as int].0@ == key@,
            r is None ==> !self.has_key(key@),
    {
        let mut i: usize = 0;
        while i < self.clients.len()
            invariant
                i <= self.clients.len(),
                forall|j: int| 0 <= j < i ==> #[trigger] self.clients[j].0@ != key@,
            decreases self.clients.len() - i,
        {
            if crate::text::same_text(self.clients[i].0.as_str(), key) {
                return Some(i);
            }
            i = i + 1;
        }
        None
    }

    /// The client for the configured host: the one the pool already keeps under its
    /// `user@host:port`, or a new one, which the pool then keeps.
    pub fn get_or_create(&mut self, host_config: &RemoteHost) -> (r: Result<Arc<SshClient>, GroveError>)
        ensures
            r matches Ok(c) && c@ == pooled_client(old(self).entries(), *host_config),
            final(self).entries() == pool_after_get(old(self).entries(), *host_config),
    {
        proof {
            use_type_invariant(&*self);
        }
        let key = pool_key_of(host_config.user.as_str(), host_config.host.as_str(), host_config.port);
        match self.find(key.as_str()) {
            Some(i) => {
                proof {
                    self.lemma_entry_at(i as int);
                }
                return Ok(share(&self.clients[i].1));
            },
            None => {},
        }
        let client = match SshClient::from_config(host_config) {
            Ok(c) => c,
            Err(e) => return Err(e),
        };
        let client = Arc::new(client);
        let shared = share(&client);
        let ghost old_pool = *self;
        let mut clients: Vec<(String, Arc<SshClient>)> = Vec::new();
        std::mem::swap(&mut clients, &mut self.clients);
        let ghost before = clients@;
        clients.push((key, client));
        proof {
            assert forall|i: int, j: int| 0 <= i < j < clients.len() implies #[trigger] clients@[i].0@
                != #[trigger] clients@[j].0@ by {
                if j == clients.len() - 1 {
                    assert(clients@[i] == old_pool.clients@[i]);
                }
            }
        }
        self.clients = clients;
        proof {
            let k = pool_key(host_config.user@, host_config.host@, host_config.port);
            assert(old_pool.entries() == old(self).entries());
            assert forall|k2: Seq<char>| #[trigger] self.entries().contains_key(k2) == old(self).entries().insert(k, host_client(*host_config)).contains_key(k2) by {
                if k2 != k && self.has_key(k2) {
                    let j = choose|j: int| 0 <= j < self.clients.len() && #[trigger] self.clients[j].0@ == k2;
                    assert(j < old_pool.clients.len());
                    assert(old_pool.clients@[j].0@ == k2);
                    assert(old_pool.has_key(k2));
                }
                if old_pool.has_key(k2) {
                    let j = choose|j: int| 0 <= j < old_pool.clients.len() && #[trigger] old_pool.clients@[j].0@ == k2;
                    assert(self.clients[j].0@ == k2);
                }
                if k2 == k {
                    assert(self.clients[self.clients.len() - 1].0@ == k);
                }
            }
            assert forall|k2: Seq<char>| #[trigger] self.entries().contains_key(k2) implies self.entries()[k2] == old(self).entries().insert(k, host_client(*host_config))[k2] by {
                let j = choose|j: int| 0 <= j < self.clients.len() && #[trigger] self.clients[j].0@ == k2;
                self.lemma_entry_at(j);
                if j < old_pool.clients.len() {
                    assert(self.clients[j] == old_pool.clients@[j]);
                    old_pool.lemma_entry_at(j);
                }
            }
            assert(self.entries() =~= old(self).entries().insert(k, host_client(*host_config)));
        }
        Ok(shared)
    }

    /// Law: asking twice for the same host hands out the same client, and the second time
    /// leaves the pool as the first left it.
    pub proof fn lemma_get_twice(entries: Map<Seq<char>, SshClientView>, h: RemoteHost)
        ensures
            pooled_client(pool_after_get(entries, h), h) == pooled_client(entries, h),
            pool_after_get(pool_after_get(entries, h), h) == pool_after_get(entries, h),
    {
    }

    /// Law: the client handed out for a host the pool did not know connects to that host as
    /// configured; one it knew is the one it kept.
    pub proof fn lemma_get_fresh(entries: Map<Seq<char>, SshClientView>, h: RemoteHost)
        ensures
            !entries.contains_key(config_key(h)) ==> pooled_client(entries, h) == host_client(h),
            entries.contains_key(config_key(h)) ==> pooled_client(entries, h) == entries[config_key(h)],
            pool_after_get(entries, h).contains_key(config_key(h)),
            pool_after_get(entries, h)[config_key(h)] == pooled_client(entries, h),
    {
    }

    /// Law: handing out a client for one host leaves the entries of every other key alone,
    /// and so does forgetting one key.
    pub proof fn lemma_other_keys(entries: Map<Seq<char>, SshClientView>, h: RemoteHost, k: Seq<char>)
        requires
            k != config_key(h),
        ensures
            pool_after_get(entries, h).contains_key(k) == entries.contains_key(k),
            entries.contains_key(k) ==> pool_after_get(entries, h)[k] == entries[k],
            entries.remove(config_key(h)).contains_key(k) == entries.contains_key(k),
    {
    }

    /// Law: after forgetting a host, the pool keeps nothing under its key, so the next
    /// request makes a new client.
    pub proof fn lemma_remove_then_get(entries: Map<Seq<char>, SshClientView>, h: RemoteHost)
        ensures
            !entries.remove(pool_key(h.user@, h.host@, h.port)).contains_key(config_key(h)),
            pooled_client(entries.remove(pool_key(h.user@, h.host@, h.port)), h) == host_client(h),
    {
    }

    /// Forgets the client for `user@host:port`.
    pub fn remove(&mut self, host: &str, user: &str, port: u16)
        ensures
            final(self).entries() == old(self).entries().remove(pool_key(user@, host@, port)),
    {
        proof {
            use_type_invariant(&*self);
        }
        let key = pool_key_of(user, host, port);
        let ghost k = key@;
        match self.find(key.as_str()) {
            None => {
                assert(self.entries() =~= old(self).entries().remove(k));
            },
            Some(i) => {
                let ghost old_pool = *self;
                let mut clients: Vec<(String, Arc<SshClient>)> = Vec::new();
                std::mem::swap(&mut clients, &mut self.clients);
                let ghost before = clients@;
                assert(old_pool.entries() == old(self).entries());
                let _ = clients.remove(i);
                assert(clients@ == old_pool.clients@.remove(i as int));
                proof {
                    assert forall|a: int, b: int| 0 <= a < b < clients.len() implies #[trigger] clients@[a].0@
                        != #[trigger] clients@[b].0@ by {
                        let a0: int = if a < i { a } else { a + 1 };
                        let b0: int = if b < i { b } else { b + 1 };
                        assert(clients@[a] == old_pool.clients@[a0]);
                        assert(clients@[b] == old_pool.clients@[b0]);
                    }
                }
                self.clients = clients;
                proof {
                    assert forall|k2: Seq<char>| #[trigger] self.entries().contains_key(k2) == old(self).entries().remove(k).contains_key(k2) by {
                        if self.has_key(k2) {
                            let j = choose|j: int| 0 <= j < self.clients.len() && #[trigger] self.clients[j].0@ == k2;
                            let j0: int = if j < i { j } else { j + 1 };
                            assert(self.clients[j] == old_pool.clients@[j0]);
                            assert(old_pool.has_key(k2));
                            assert(old_pool.clients@[i as int].0@ == k);
                            assert(j0 != i);
                            if k2 == k {
                                if j0 < i { assert(old_pool.clients@[j0].0@ != old_pool.clients@[i as int].0@); }
                                else { assert(old_pool.clients@[i as int].0@ != old_pool.clients@[j0].0@); }
                            }
                        }
                        if old_pool.has_key(k2) && k2 != k {
                            let j = choose|j: int| 0 <= j < old_pool.clients.len() && #[trigger] old_pool.clients@[j].0@ == k2;
                            assert(j != i);
                            let j1: int = if j < i { j } else { j - 1 };
                            assert(self.clients[j1] == old_pool.clients@[j]);
                        }
                    }
                    assert forall|k2: Seq<char>| #[trigger] self.entries().contains_key(k2) implies self.entries()[k2] == old(self).entries().remove(k)[k2] by {
                        let j = choose|j: int| 0 <= j < self.clients.len() && #[trigger] self.clients[j].0@ == k2;
                        self.lemma_entry_at(j);
                        let j0: int = if j < i { j } else { j + 1 };
                        assert(self.clients[j] == old_pool.clients@[j0]);
                        old_pool.lemma_entry_at(j0);
                    }
                    assert(self.entries() =~= old(self).entries().remove(k));
                }
            },
        }
    }

    /// Forgets every client.
    pub fn clear(&mut self)
        ensures
            final(self).entries() == Map::<Seq<char>, SshClientView>::empty(),
    {
        self.clients = Vec::new();
        assert(self.entries() =~= Map::<Seq<char>, SshClientView>::empty());
    }
}

impl Default for ConnectionPool {
    fn default() -> (r: Self)
        ensures
            r.entries() == Map::<Seq<char>, SshClientView>::empty(),
    {
        Self::new()
    }
}

} // verus!
