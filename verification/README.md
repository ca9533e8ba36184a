# grove

Manages AI coding agents that each run in a tmux session, on this machine or on a
remote host reached over SSH, in a git worktree of their own.

The library under `src/` is written in Verus and verified:

- `text` – the string functions the rest builds on (trimming, splitting, lines, shell
  quoting, decimal numbers), each with a specification, and the law that a shell reads a
  quoted word back unchanged.
- `config` – remote hosts as the configuration describes them.
- `error` – the library's errors and their messages.
- `ssh` – SSH clients, the commands they run and what each outcome means, and a pool
  that keeps one client per `user@host:port`.
- `ssh::remote` – remote tmux sessions: the command lines that drive them and how their
  output is read.
- `tmux` – one handle for a local or a remote session.
- `agent` – agents, their UUIDs and session names.
- `agent::manager` – the agent lifecycle (create, send input, capture output, attach,
  restart, delete), each as a job that asks its caller for one action at a time and
  decides what comes next from the reply.

`app/` is ordinary Rust around the library: it opens SSH connections, runs local
processes and drives the manager's jobs to completion.
