//! Collaborative patch objects: a typed change-set model projected onto a
//! replicated document, with the document itself handled by automerge.

pub mod doc;
pub mod error;
pub mod types;
pub mod engine;
pub mod projection;
pub mod events;
pub mod creation;
pub mod store;
pub mod laws;
pub mod profile;
pub mod tags;
pub mod checkout;
