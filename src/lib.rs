//! A small multi-user chat backend: users with a presence flag and an
//! optional display name, an append-only message log, and the procedures
//! (reducers) that change them atomically on behalf of a calling identity.

pub mod identity;
pub mod validation;
pub mod tables;
pub mod reducers;
pub mod laws;
