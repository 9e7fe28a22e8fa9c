# Aegis Private Browser

Aegis runs disposable and persistent browsing profiles behind an enforced tunnel.
A session reaches the network only through a gateway VM (or, where the policy
permits it, through a proxy on the host), and every failure of containment cuts
traffic before anything else happens.

## Layout

- `src/` is the library. Every function in it is verified by Verus against its
  contract.
  - The domain: `ids`, `time`, `network`, `fingerprint`, `permissions`, `profile`,
    `preview`, `session`, `preflight`, `vm`, `gateway`, `browser`, `secure`,
    `update`, `config`, `events`, `audit`, `health`, `error`.
  - The browsers: `chromium`, `firefox`, `runner`, `host_runner`, `policy`.
  - The daemon: `orchestrator`, `sessions`, `flow`, `handler`, `safety`.
  - The protocol: `protocol`, `frame`, `transport`, `server`, `connect`.
  - The front-ends: `cli`, `output`, `render`, `dto`, `form`, `ui`.
  - Shared text and tables: `text`, `table`.
- `tests/` runs the library on concrete values.
- `app/` is the program around it: the command line, the daemon, sockets,
  processes, files and the JSON notation of the library's types.

## How a session runs

`flow` is a state machine. Each step names the audit records to write and one
action to perform; the caller performs it and hands back what came of it. `safety`
proves what holds of every such run, whatever the outside world answers: no browser
is launched before containment was shown, a containment failure cuts traffic before
it is recorded and torn down, and every teardown comes to its end.

## What is not proved

A few private functions call outside crates (`uuid`, `chrono`, `serde_json`,
`zeroize`). Their doc comments say what is claimed of each call. `app/` is ordinary
Rust.
