# zermia

A fault-injection monitor for network simulations. The simulated hosts report
their syscalls and packets to a monitor process; the monitor answers, and the
answer decides whether a syscall runs as usual, fails, returns early or is
repeated.

- `src/` is the verified library (Verus): the report record (`message`), the
  syscall monitor (`call_monitor`), the per-pair packet counter
  (`packet_monitor`), the handler's decisions on the monitor's replies
  (`syscall_fault`), the tracing counters (`tracker`), the greeting service
  (`monitor_service`), the texts of the TCP demos (`tcp_demo`, `text`) and the
  capture options of a network interface (`pcap`).
- `app/` is the unverified shell: SysV message queues, shared memory, TCP
  sockets, the C and Java entry points, and printing.
- `tests/` runs the library on concrete values.
