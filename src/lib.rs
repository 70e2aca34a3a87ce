//! A directory-watching secure-transfer agent's core: the artifact envelopes (an AES-256-GCM
//! envelope with a byte-exact layout, and an OpenPGP envelope), the eligibility filter, the
//! retry coordinator, the per-path pipeline and the watch loop's decisions. The loops that
//! perform I/O run these decisions from outside the library.
pub mod config;
pub mod encryptor;
pub mod envelope;
pub mod key;
pub mod naming;
pub mod pgp;
pub mod pipeline;
pub mod retry;
pub mod watch;
