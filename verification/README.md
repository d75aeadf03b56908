# iperf3_rust

A TCP throughput tester in the style of iperf3, with its protocol logic verified
with Verus.

- `src/` is the verified library: the control messages and test parameters,
  the length-prefixed framing of control messages (through `bytes`), the
  session bookkeeping and the decisions of the test controller, the server's
  admission of data streams, the data-stream workers' counters, and the choice
  of units in reports.
- `app/` is the program around it: command-line parsing (`clap`), JSON
  serialization (`serde`, `serde_json`), error messages (`thiserror`), sockets,
  the async runtime and its channels (`tokio`, `futures`), socket options
  (`libc`), logging (`log`) and printing of reports.
- `tests/` runs the library on concrete values.
