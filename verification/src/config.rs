//! The remote hosts of the configuration.
use vstd::prelude::*;

use crate::text::same_text;

verus! {

/// One remote host that agents can run on.
#[derive(Debug)]
pub struct RemoteHost {
    /// The name by which agents refer to the host.
    pub name: String,
    /// Host name or address to connect to.
    pub host: String,
    /// User to log in as.
    pub user: String,
    /// SSH port.
    pub port: u16,
    /// Private key file to authenticate with, if any.
    pub identity_file: Option<String>,
    /// The directory on the host under which agents' worktrees are made.
    pub worktree_dir: String,
}

/// Where on host `h` the worktree called `id` is made.
pub open spec fn remote_worktree(h: RemoteHost, id: Seq<char>) -> Seq<char> {
    h.worktree_dir@ + seq!['/'] + id
}

impl RemoteHost {
    /// Where on the host the worktree called `id` is made.
    pub fn worktree_path(&self, id: &str) -> (r: String)
        ensures
            r@ == remote_worktree(*self, id@),
    {
        let mut r = crate::text::to_owned(self.worktree_dir.as_str());
        crate::text::push_char(&mut r, '/');
        r.append(id);
        r
    }
}

/// The SSH part of the configuration: the known remote hosts, in order.
#[derive(Debug)]
pub struct SshConfig {
    pub hosts: Vec<RemoteHost>,
}

/// The first of `hosts` whose name is `name`, if any.
pub open spec fn first_named(hosts: Seq<RemoteHost>, name: Seq<char>) -> Option<RemoteHost>
    decreases hosts.len(),
{
    if hosts.len() == 0 {
        None
    } else if hosts[0].name@ == name {
        Some(hosts[0])
    } else {
        first_named(hosts.drop_first(), name)
    }
}

proof fn lemma_first_named_at(hosts: Seq<RemoteHost>, name: Seq<char>, i: int)
    requires
        0 <= i <= hosts.len(),
        forall|j: int| 0 <= j < i ==> #[trigger] hosts[j].name@ != name,
    ensures
        first_named(hosts, name) == if i < hosts.len() && hosts[i].name@ == name {
            Some(hosts[i])
        } else {
            first_named(hosts.subrange(i, hosts.len() as int), name)
        },
    decreases i,
{
    if i == 0 {
        assert(hosts.subrange(0, hosts.len() as int) == hosts);
    } else {
        let t = hosts.drop_first();
        assert forall|j: int| 0 <= j < i - 1 implies #[trigger] t[j].name@ != name by {
            assert(t[j] == hosts[j + 1]);
        }
        lemma_first_named_at(t, name, i - 1);
        assert(t.subrange(i - 1, t.len() as int) == hosts.subrange(i, hosts.len() as int));
        if i < hosts.len() {
            assert(t[i - 1] == hosts[i]);
        }
    }
}

impl SshConfig {
    /// The first host whose name is `name`, if any.
    pub fn get_host(&self, name: &str) -> (r: Option<&RemoteHost>)
        ensures
            match r {
                Some(h) => first_named(self.hosts@, name@) == Some(*h),
                None => first_named(self.hosts@, name@) is None,
            },
    {
        let mut i: usize = 0;
        while i < self.hosts.len()
            invariant
                i <= self.hosts.len(),
                forall|j: int| 0 <= j < i ==> #[trigger] self.hosts[j].name@ != name@,
            decreases self.hosts.len() - i,
        {
            if same_text(self.hosts[i].name.as_str(), name) {
                proof {
                    lemma_first_named_at(self.hosts@, name@, i as int);
                }
                return Some(&self.hosts[i]);
            }
            i = i + 1;
        }
        proof {
            lemma_first_named_at(self.hosts@, name@, i as int);
            assert(self.hosts@.subrange(i as int, self.hosts.len() as int).len() == 0);
        }
        None
    }
}

} // verus!
