//! Passkey ceremony core: a server-side session state machine that sequences
//! WebAuthn registration and authentication steps, an in-memory identity
//! directory with atomic check-and-insert, and a deterministic key-derivation
//! algorithm that turns a per-device secret released during a ceremony into a
//! stable P-256 signing key.

pub mod api;
pub mod capability;
pub mod ceremony;
pub mod client;
pub mod directory;
pub mod error;
pub mod keygen;
pub mod session;
pub mod webauthn;
