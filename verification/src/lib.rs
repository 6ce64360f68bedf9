//! A minimal pastebin core: clients submit text content and receive a short
//! slug they can later use to retrieve or delete that content.
//!
//! The crate covers the paste lifecycle: the domain invariants (content and
//! slug size limits), the storage contract a backend must satisfy, and an
//! in-memory implementation with collision-free slug generation. The HTTP
//! transport around it is an external collaborator and lives outside this
//! library.

pub mod domain;
pub mod repo;
mod store;
pub mod service;
