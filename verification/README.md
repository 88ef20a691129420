# dns_ingress

A proxy for encrypted DNS: DNS over TLS, HTTPS, QUIC and HTTP/3. A client names a host
below one of the configured base domains in its TLS handshake; the proxy takes the prefix
of that name, puts the target suffix behind it, and passes the traffic on to the host that
results.

- `src/` is the library, verified with Verus: the configuration and its rules, the
  rewriting of server names, the admission of requests, what goes upstream and what comes
  back, the pools of connections, the certificates that clients are shown, the metrics,
  and the lives of listeners, connections, streams and tasks as state machines. What
  outside crates do is stated in wrappers, each with a comment that names the function it
  stands for.
- `app/` is the program around it: files, sockets, TLS and QUIC sessions, and the loops
  that perform what the state machines ask for.
- `tests/` runs the library on concrete values.

A state machine has an enum of stages, an enum of events and an enum of actions. `awaits`
says which events can come at a stage, `reaction` what an event calls for, and `obeys`
whether an action and the next state do that; `step` is proved to obey.
