//! Assets and how they are identified.

use crate::bytes::same_bytes;
use crate::multilocation::{LocationView, MultiLocation};
use vstd::prelude::*;

verus! {

/// Which one of the items of a non-fungible asset is meant.
#[derive(Clone, Copy, Eq, Debug)]
pub enum AssetInstance {
    /// The asset has one item only.
    Undefined,
    Index(u128),
    Array4([u8; 4]),
    Array8([u8; 8]),
    Array16([u8; 16]),
    Array32([u8; 32]),
}

impl PartialEq for AssetInstance {
    /// Whether both name the same item.
    fn eq(&self, other: &AssetInstance) -> (same: bool)
        ensures
            same == (*self == *other),
    {
        match (self, other) {
            (AssetInstance::Undefined, AssetInstance::Undefined) => true,
            (AssetInstance::Index(a), AssetInstance::Index(b)) => *a == *b,
            (AssetInstance::Array4(a), AssetInstance::Array4(b)) => same_bytes(a, b),
            (AssetInstance::Array8(a), AssetInstance::Array8(b)) => same_bytes(a, b),
            (AssetInstance::Array16(a), AssetInstance::Array16(b)) => same_bytes(a, b),
            (AssetInstance::Array32(a), AssetInstance::Array32(b)) => same_bytes(a, b),
            _ => false,
        }
    }
}

impl vstd::std_specs::cmp::PartialEqSpecImpl for AssetInstance {
    open spec fn obeys_eq_spec() -> bool {
        true
    }

    open spec fn eq_spec(&self, other: &AssetInstance) -> bool {
        *self == *other
    }
}

/// How much of a fungible asset, or which item of a non-fungible one.
#[derive(Clone, Copy, Eq, Debug)]
pub enum Fungibility {
    Fungible(u128),
    NonFungible(AssetInstance),
}

impl PartialEq for Fungibility {
    /// Whether both give the same amount, or name the same item.
    fn eq(&self, other: &Fungibility) -> (same: bool)
        ensures
            same == (*self == *other),
    {
        match (self, other) {
            (Fungibility::Fungible(a), Fungibility::Fungible(b)) => *a == *b,
            (Fungibility::NonFungible(a), Fungibility::NonFungible(b)) => *a == *b,
            _ => false,
        }
    }
}

impl vstd::std_specs::cmp::PartialEqSpecImpl for Fungibility {
    open spec fn obeys_eq_spec() -> bool {
        true
    }

    open spec fn eq_spec(&self, other: &Fungibility) -> bool {
        *self == *other
    }
}

/// What identifies an asset.
#[derive(Eq, Debug)]
pub enum AssetId {
    /// The asset is identified by a location.
    Concrete(MultiLocation),
    /// The asset is identified by a name with no location in it.
    Abstract(Vec<u8>),
}

/// The mathematical value of an [`AssetId`].
pub enum AssetIdView {
    Concrete(LocationView),
    Abstract(Seq<u8>),
}

impl View for AssetId {
    type V = AssetIdView;

    open spec fn view(&self) -> AssetIdView {
        match *self {
            AssetId::Concrete(location) => AssetIdView::Concrete(location@),
            AssetId::Abstract(name) => AssetIdView::Abstract(name@),
        }
    }
}

impl DeepView for AssetId {
    type V = AssetIdView;

    open spec fn deep_view(&self) -> AssetIdView {
        self@
    }
}

impl PartialEq for AssetId {
    /// Whether both identify an asset in the same way and by equal data.
    fn eq(&self, other: &AssetId) -> (same: bool)
        ensures
            same == (self@ == other@),
    {
        match (self, other) {
            (AssetId::Concrete(a), AssetId::Concrete(b)) => *a == *b,
            (AssetId::Abstract(a), AssetId::Abstract(b)) => {
                let same = a == b;
                assert(same == (a@ =~= b@));
                same
            },
            _ => false,
        }
    }
}

impl vstd::std_specs::cmp::PartialEqSpecImpl for AssetId {
    open spec fn obeys_eq_spec() -> bool {
        true
    }

    open spec fn eq_spec(&self, other: &AssetId) -> bool {
        self@ == other@
    }
}

impl Clone for AssetId {
    /// A copy with the same value.
    fn clone(&self) -> (copy: AssetId)
        ensures
            copy@ == self@,
    {
        match self {
            AssetId::Concrete(location) => AssetId::Concrete(location.clone()),
            AssetId::Abstract(name) => AssetId::Abstract(name.clone()),
        }
    }
}

/// An asset: what it is, and how much or which one of it.
#[derive(Eq, Debug)]
pub struct MultiAsset {
    pub id: AssetId,
    pub fun: Fungibility,
}

/// The mathematical value of a [`MultiAsset`].
pub struct AssetView {
    pub id: AssetIdView,
    pub fun: Fungibility,
}

impl View for MultiAsset {
    type V = AssetView;

    open spec fn view(&self) -> AssetView {
        AssetView { id: self.id@, fun: self.fun }
    }
}

impl DeepView for MultiAsset {
    type V = AssetView;

    open spec fn deep_view(&self) -> AssetView {
        self@
    }
}

impl PartialEq for MultiAsset {
    /// Whether both are the same asset, in the same amount or the same item.
    fn eq(&self, other: &MultiAsset) -> (same: bool)
        ensures
            same == (self@ == other@),
    {
        self.id == other.id && self.fun == other.fun
    }
}

impl vstd::std_specs::cmp::PartialEqSpecImpl for MultiAsset {
    open spec fn obeys_eq_spec() -> bool {
        true
    }

    open spec fn eq_spec(&self, other: &MultiAsset) -> bool {
        self@ == other@
    }
}

impl Clone for MultiAsset {
    /// A copy with the same value.
    fn clone(&self) -> (copy: MultiAsset)
        ensures
            copy@ == self@,
    {
        MultiAsset { id: self.id.clone(), fun: self.fun }
    }
}

} // verus!
