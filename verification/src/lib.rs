//! A small credential-issuance library: the category-to-display mapping,
//! the credential document builder with its identifier and timestamp
//! generation, the request validation and relay classification of the
//! HTTP surface, the chat dialogue state machine, and the QR rendering
//! of issued invitations.

pub mod dialogue;
pub mod document;
pub mod models;
pub mod routes;
pub mod timestamp;
pub mod utils;
