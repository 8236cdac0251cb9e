# osprey_svc

The Osprey agent: a Windows service that serves paired iPhone controllers over
the local network and, when enrolled, through a relay it does not trust.

The crate is split in two:

- `src/` is the agent's decision logic, written in Verus with its contracts
  proved: which addresses may be bound, served and advertised over mDNS; the
  relay attach endpoint, keepalive, disconnect classification and retry
  backoff; the metrics collector's arithmetic, the 24-hour ring and the wire
  bodies built from it; the session protocol's replies and metrics
  subscriptions; the pin store and its revocation rules; the live-session
  registry; the helper supervisor; the data-directory layout; and the
  service's registration values.
- `app/` is the binary around it: argument parsing, sockets, files, threads,
  the relay HTTP calls, the mDNS daemon, and the Noise sessions of the
  project's core crate.

`tests/` exercises the library on concrete values.
