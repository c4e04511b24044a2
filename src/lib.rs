//! Read-only price-history service core: symbol allow-list, origin policy
//! parsing, and the mapping from store outcomes to HTTP-level results.

pub mod history;
pub mod origins;
pub mod symbol;
