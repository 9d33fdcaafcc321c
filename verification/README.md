# boundless_server_core

The member-authentication and admin member-management decision core of Boundless, a
closed-group carpooling service, as a verified Verus library.

- `src/` — the decisions, each with a contract proved by Verus: phone canonicalization, the
  version handshake, sign-in, the device bind, refresh rotation, Driver recovery re-bind, the
  group hub's attempt / rejection windows and once-a-day alert dedup, developer Admin
  provisioning, member issuance / edit / list / audited detail read, the audit gate, and the
  opaque-token and base64url encodings. The multi-step endpoints are split into step functions:
  the caller performs the effect a step asks for (a store read, a code check, a consume) and hands
  its result to the next step.
- `app/` — the async I/O shell: store ports, the clock, the hashing / encryption primitives, the
  endpoint orchestration driving the steps, and the serde wire copies of the library's types.
- `tests/` — the behavioural tests, run against the compiled library.
