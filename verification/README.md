# awdl_disabler

A daemon for macOS that keeps the `awdl0` interface down while it runs and
brings it back up when it is stopped with `SIGINT` or `SIGTERM`.

- `src/` is the verified library: the interface-flags logic
  (`awdl_controller`), the errors and what is logged for them (`error`),
  the classification of kernel events (`event`), the `os_log` argument
  buffer (`os_log`), and the daemon itself as a state machine (`daemon`):
  it returns the next system call to make and takes back its outcome.
  `laws` states and proves properties of whole runs.
- `app/` performs the system calls (sockets, ioctls, kqueue, routing-socket
  reads, unified logging) on macOS and feeds their outcomes to the daemon.
