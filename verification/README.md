# periphery

The decision-making core of the Komodo Periphery agent, verified with Verus.

- `src/retry.rs`: de-duplication of repeated failure logs (first failure,
  every 12th, or 60 s after the last report), with its laws.
- `src/outbound.rs`: the outbound reconnect loop to Core as a state machine
  (event in, next step out), and the onboarding flow's steps.
- `src/login.rs`: checks on the messages of the login exchange.
- `src/connect.rs`: the websocket endpoint and the connection errors.
- `src/shell.rs`, `src/build_args.rs`: shell quoting of `--build-arg`
  values, proved against a model of the shell's word splitting.
- `src/files.rs`: the environment file, Dockerfile and build secret files
  to write, and their log lines.
- `src/text.rs`: decimal numbers and character search.

`app/` performs the I/O: it writes the planned files and runs the reconnect
loop against the transport layer, which it reaches through traits.
