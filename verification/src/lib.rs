//! Session identifiers for server-side request handling: the sealed envelope
//! that carries a field, the transport fields of a response, and the records
//! that a session handle reads and writes.

pub mod aead;
pub mod ids;
pub mod session;
pub mod headers;
pub mod keys;
