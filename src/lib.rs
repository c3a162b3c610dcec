//! Construction, signing and wire encoding of extrinsics.

pub mod account;
pub mod api;
pub mod era;
pub mod extrinsic;
pub mod payload;
pub mod scale;
