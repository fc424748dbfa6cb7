//! Helpers for checking attribute-style code transformers.
//!
//! The crate models the pieces of a source declaration that a transformer
//! test needs to inspect: the attributes attached to a declaration, the
//! shape of a transformer function's signature, and the token text the
//! transformer produces. On that model it verifies the rules a test relies
//! on: which attribute is picked and removed, which signatures are accepted,
//! what expansion source is produced, and when two renderings of a
//! declaration count as equal up to whitespace.

pub mod attrs;
pub mod signature;
pub mod text;
