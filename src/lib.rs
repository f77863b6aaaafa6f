//! Wire codec for the patch service: header framing, the message registry
//! and the fixed byte layout of each message kind.

pub mod bytes;
pub mod error;
pub mod text;
pub mod payload;
pub mod cipher;
pub mod header;
pub mod registry;
pub mod theorems;
