//! Client-side state of a fungible asset: fixed-point amounts, the asset
//! aggregate with its ownership index, and the derivation of an asset from
//! a genesis.

pub mod amount;
pub mod asset;
pub mod chain;
pub mod data;
pub mod date;
pub mod derivation;
pub mod genesis;
pub mod id;
pub mod schema;
pub mod seal;
pub mod value;
