//! Instructions of a margin-lending and cross-margin trading program: their
//! binary encoding, and the requests that carry them.
pub mod builders;
pub mod dex;
pub mod fixed_point;
pub mod instruction;
pub mod laws;
pub mod request;
pub mod state;
pub mod wire;
