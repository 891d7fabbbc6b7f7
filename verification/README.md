# syswatch

The core of SysWatch, a TCP server for remote monitoring and control of a
machine, written in Verus. A client authenticates with a token, then sends
command lines (`cpu`, `mem`, `disk`, `net`, `ps`, `uptime`, `host`, `all`,
`shutdown`, `reboot`, `abort`, `lock`, `hibernate`, `kill <PID>`,
`msg <text>`, `exec <command>`, `install <pkg>`, `uninstall <pkg>`,
`wget <url>`, `help`, `quit`).

- `src/` is the verified library: command parsing, the text of every answer,
  the rendering of the system report, the ranking of processes, the outside
  work each command asks for, and the session protocol, each with its
  contract.
- `app/` is the server itself: it reads the machine with `sysinfo`, the clock
  with `chrono`, the user with `whoami` and the address with
  `local-ip-address`, listens on port 7878, writes `syswatch.log` and runs
  the programs that control commands ask for.
- `tests/` checks the library on concrete values.
