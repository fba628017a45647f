//! Workflow step editor core: the verified logic behind the recorder —
//! schema types, key semantics, step parsing, permission ordering, capture
//! timing and frame selection, crop encoding, persistence rules, and the
//! recording lifecycle decisions.

pub mod capture;
pub mod commands;
pub mod domain;
pub mod permissions;
pub mod recording;
pub mod text;
