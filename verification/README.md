# dnet

The verified core of the dnet VPN daemons (a client daemon, two router
daemons, a proxy daemon and their helpers), written in Verus.

- `src/` is the library. Every function in it is verified against its
  contract, except three small trusted wrappers whose contracts are taken
  on trust: `push_char` (`String::push`), `to_lowercase`
  (`str::to_lowercase`) and `try_draw` (the operating system's random
  bytes, through `rand`). The library covers settings resolution, the text
  of tinc's configuration files and of the firewall scripts, the state
  machines that schedule and supervise the daemons' work, and the small readers of command output (routes,
  iptables listings, tinc events).
- `tests/` runs the library on concrete values.
- `app/` is the plain Rust around it: reading `settings.toml`, the command
  line, running shell commands, writing files, JSON, and the loops that feed
  the state machines with what the outside world answers.
