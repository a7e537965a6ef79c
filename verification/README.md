# arc_signal

Verified core of the Arc end-to-end encryption binding over the Signal
Protocol.

- `src/` — the library, proved with Verus:
  - `device` — device ids (`1..=127`) and addresses;
  - `distribution` — distribution ids (16-byte UUIDs);
  - `sender_key_store` — the sender-key store used for group messaging, with
    deletion (needed to rotate keys when a member leaves);
  - `group` — request checking and the delete / lookup / reset operations on
    the sender-key store;
  - `sessions` — the registry of peers with an established session;
  - `protocol` — the protocol-store slot, message-type dispatch, pre-key
    pairing, version banner and the result records returned to the client;
  - `laws` — properties that relate the operations above.
- `app/` — the client-facing API: global stores behind locks, the async
  runtime, and the calls into libsignal.
- `tests/` — tests of the library.
