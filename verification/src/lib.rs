//! State-transition logic of a small content ledger: users publish a named
//! review record, other users attach ordered comments to it, and each
//! successful write mints a reward token to the acting user's associated
//! token account. Every persistent record lives at an address derived from
//! seed byte-strings, every write path re-derives and cross-checks that
//! address before trusting the data at it, and a per-review counter gives
//! comments a stable, collision-free ordering.

pub mod address;
pub mod bytes;
pub mod error;
pub mod host;
pub mod laws;
pub mod processor;
pub mod state;
