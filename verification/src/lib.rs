//! Client attestation library.
//!
//! A client proves to a remote server which build it is running, from which
//! machine, at which moment: build provenance frozen at compile time, a
//! digest of the running binary, a device fingerprint with total fallback
//! chains, and a replay-protected request with a fresh nonce, together with
//! the interpretation of the server's reply.

mod clock;
pub mod fingerprint;
pub mod hashing;
pub mod provenance;
pub mod request;
pub mod text;
pub mod transport;
