# nymlib

Verified pieces of a mixnet client, its API server and its VPN gateway.

- `src/shared_key/`: the key a client shares with its gateway. The current key
  encrypts with AES-256-GCM-SIV; the legacy keys encrypt with AES-128-CTR and put an
  HMAC-SHA256 tag in front. Contracts state which nonces are accepted, every error,
  the added length, and that decryption undoes encryption.
- `src/init.rs`: client initialisation as a state machine that says which store to
  ask next and what each answer leads to.
- `src/logging.rs`, `src/tun_device.rs`: the decisions of the request logger and of
  the TUN device task.
- `src/network_monitor.rs`, `src/storage.rs`: plain assembly of components.
- `src/primitives.rs`: the calls into the cipher, MAC and base58 crates, with the
  contracts that are trusted.
- `app/`: the asynchronous and I/O side (stores, files, HTTP middleware, the TUN
  device) that drives the library.
