//! Classification of hierarchical, multi-chain locations.
//!
//! A [`MultiLocation`] says where something lives relative to the current
//! chain: a number of levels up, then a path of [`Junction`]s down. This crate
//! splits such a location into the chain it lies on ([`Parse::chain_part`])
//! and what it names on that chain ([`Parse::non_chain_part`]), finds the
//! chain on which a [`MultiAsset`] is held in reserve ([`Reserve::reserve`]),
//! and builds the location of a key on a sibling chain
//! ([`RelativeLocations::sibling_allychain_general_key`]).
//!
//! Every function is total and its contract says exactly what it returns,
//! over the mathematical value of its arguments: a [`LocationView`] for a
//! location, a sequence of [`JunctionView`]s for its path, an [`AssetView`]
//! for an asset.

mod bytes;
pub mod junction;
pub mod location;
pub mod multiasset;
pub mod multilocation;

pub use junction::{BodyId, BodyPart, Junction, JunctionView, NetworkId};
pub use location::{Parse, RelativeLocations, Reserve};
pub use multiasset::{AssetId, AssetIdView, AssetInstance, AssetView, Fungibility, MultiAsset};
pub use multilocation::{LocationView, MultiLocation};
