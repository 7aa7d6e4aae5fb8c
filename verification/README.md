# ntk

The verified core of the Network ToolKit, a command-line tool for network
discovery and diagnostics (interfaces, gateways, ARP discovery, ping and
traceroute, port scans, HTTP fetches, MAC vendor lookups, a packet viewer).

- `src/` is the library, checked by Verus: address and packet parsing, the
  frames the probes send, port bookkeeping, the traceroute reply order, the
  HTTP decisions, the netlink route question and answer, the Internet
  checksum (with the proof that built frames carry a right one), and every
  line and error message the subcommands print.
  Calls into other crates (random numbers, checksums, netlink messages, URL
  and JSON handling) sit behind small trusted wrappers whose contracts say
  what is assumed.
- `tests/` runs the library on concrete inputs.
- `app/` is the program: command-line parsing, sockets, packet capture,
  HTTP and files, handing plain values to the library and printing what it
  builds.
