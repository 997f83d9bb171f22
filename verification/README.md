# rizzo-pii shell

The desktop shell of the PII anonymizer: it starts the local backend, waits for it and
opens the main window on it. What the shell decides and computes is a library verified
with Verus.

- `src/` - the verified library
  - `text` - decimal numbers, ports, searching
  - `address` - host and port of the backend
  - `args` - the command line
  - `paths` - directories and files
  - `json` - JSON values of the `serde_json` crate
  - `config` - the configuration that is kept on disk
  - `log` - the diagnostic log
  - `probe` - telling our backend from a stranger on its port
  - `poll` - waiting for the backend
  - `launch` - the order of steps from the splash window to the main window
- `tests/` - tests of the library
- `app/` - the shell itself: files, sockets, processes and windows

Probe, poll and launch are state machines. The shell performs what the current phase
asks for and reports the outcome; the library says what comes next.
