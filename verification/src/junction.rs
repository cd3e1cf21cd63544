//! The steps of a location's way down, and the data that a step may carry.

use crate::bytes::same_bytes;
use vstd::prelude::*;

verus! {

/// Which network of chains an account or a consensus system belongs to.
#[derive(Clone, Copy, Eq, Debug)]
pub enum NetworkId {
    /// The network whose genesis block begins with these bytes.
    ByGenesis([u8; 32]),
    /// The network that holds the block with this number and hash.
    ByFork { block_number: u64, block_hash: [u8; 32] },
    Polkadot,
    Kusama,
    Westend,
    Rococo,
    Wococo,
    /// The Ethereum network with this chain id.
    Ethereum { chain_id: u64 },
    BitcoinCore,
    BitcoinCash,
    PolkadotBulletin,
}

impl PartialEq for NetworkId {
    /// Whether both name the same network.
    fn eq(&self, other: &NetworkId) -> (same: bool)
        ensures
            same == (*self == *other),
    {
        match (self, other) {
            (NetworkId::ByGenesis(a), NetworkId::ByGenesis(b)) => same_bytes(a, b),
            (
                NetworkId::ByFork { block_number: n1, block_hash: h1 },
                NetworkId::ByFork { block_number: n2, block_hash: h2 },
            ) => *n1 == *n2 && same_bytes(h1, h2),
            (NetworkId::Polkadot, NetworkId::Polkadot) => true,
            (NetworkId::Kusama, NetworkId::Kusama) => true,
            (NetworkId::Westend, NetworkId::Westend) => true,
            (NetworkId::Rococo, NetworkId::Rococo) => true,
            (NetworkId::Wococo, NetworkId::Wococo) => true,
            (NetworkId::Ethereum { chain_id: a }, NetworkId::Ethereum { chain_id: b }) => *a == *b,
            (NetworkId::BitcoinCore, NetworkId::BitcoinCore) => true,
            (NetworkId::BitcoinCash, NetworkId::BitcoinCash) => true,
            (NetworkId::PolkadotBulletin, NetworkId::PolkadotBulletin) => true,
            _ => false,
        }
    }
}

impl vstd::std_specs::cmp::PartialEqSpecImpl for NetworkId {
    open spec fn obeys_eq_spec() -> bool {
        true
    }

    open spec fn eq_spec(&self, other: &NetworkId) -> bool {
        *self == *other
    }
}

/// Which body of several members is meant.
#[derive(Clone, Copy, Eq, Debug)]
pub enum BodyId {
    Unit,
    Moniker([u8; 4]),
    Index(u32),
    Executive,
    Technical,
    Legislative,
    Judicial,
    Defense,
    Administration,
    Treasury,
}

impl PartialEq for BodyId {
    /// Whether both name the same body.
    fn eq(&self, other: &BodyId) -> (same: bool)
        ensures
            same == (*self == *other),
    {
        match (self, other) {
            (BodyId::Unit, BodyId::Unit) => true,
            (BodyId::Moniker(a), BodyId::Moniker(b)) => same_bytes(a, b),
            (BodyId::Index(a), BodyId::Index(b)) => *a == *b,
            (BodyId::Executive, BodyId::Executive) => true,
            (BodyId::Technical, BodyId::Technical) => true,
            (BodyId::Legislative, BodyId::Legislative) => true,
            (BodyId::Judicial, BodyId::Judicial) => true,
            (BodyId::Defense, BodyId::Defense) => true,
            (BodyId::Administration, BodyId::Administration) => true,
            (BodyId::Treasury, BodyId::Treasury) => true,
            _ => false,
        }
    }
}

impl vstd::std_specs::cmp::PartialEqSpecImpl for BodyId {
    open spec fn obeys_eq_spec() -> bool {
        true
    }

    open spec fn eq_spec(&self, other: &BodyId) -> bool {
        *self == *other
    }
}

/// How much of a body of several members is meant.
#[derive(Clone, Copy, PartialEq, Eq, Structural, Debug)]
pub enum BodyPart {
    Voice,
    Members { count: u32 },
    Fraction { nom: u32, denom: u32 },
    AtLeastProportion { nom: u32, denom: u32 },
    MoreThanProportion { nom: u32, denom: u32 },
}

/// One step down from a place into something that it contains.
///
/// Splitting a location reads only whether a junction is an `Allychain`; what
/// a junction of any other kind holds is carried along untouched.
#[allow(inconsistent_fields)]
#[derive(Eq, Debug)]
pub enum Junction {
    /// A sibling or child chain, by its numeric id.
    Allychain(u32),
    AccountId32 { network: Option<NetworkId>, id: [u8; 32] },
    AccountIndex64 { network: Option<NetworkId>, index: u64 },
    AccountKey20 { network: Option<NetworkId>, key: [u8; 20] },
    PalletInstance(u8),
    GeneralIndex(u128),
    /// A key of any length, with no meaning fixed for it.
    GeneralKey(Vec<u8>),
    OnlyChild,
    Plurality { id: BodyId, part: BodyPart },
    GlobalConsensus(NetworkId),
}

/// The mathematical value of a [`Junction`]: the same kinds, with the key of
/// `GeneralKey` as a sequence of bytes.
#[allow(inconsistent_fields)]
pub enum JunctionView {
    Allychain(u32),
    AccountId32 { network: Option<NetworkId>, id: [u8; 32] },
    AccountIndex64 { network: Option<NetworkId>, index: u64 },
    AccountKey20 { network: Option<NetworkId>, key: [u8; 20] },
    PalletInstance(u8),
    GeneralIndex(u128),
    GeneralKey(Seq<u8>),
    OnlyChild,
    Plurality { id: BodyId, part: BodyPart },
    GlobalConsensus(NetworkId),
}

impl View for Junction {
    type V = JunctionView;

    open spec fn view(&self) -> JunctionView {
        match *self {
            Junction::Allychain(id) => JunctionView::Allychain(id),
            Junction::AccountId32 { network, id } => JunctionView::AccountId32 { network, id },
            Junction::AccountIndex64 { network, index } => JunctionView::AccountIndex64 {
                network,
                index,
            },
            Junction::AccountKey20 { network, key } => JunctionView::AccountKey20 { network, key },
            Junction::PalletInstance(index) => JunctionView::PalletInstance(index),
            Junction::GeneralIndex(index) => JunctionView::GeneralIndex(index),
            Junction::GeneralKey(key) => JunctionView::GeneralKey(key@),
            Junction::OnlyChild => JunctionView::OnlyChild,
            Junction::Plurality { id, part } => JunctionView::Plurality { id, part },
            Junction::GlobalConsensus(network) => JunctionView::GlobalConsensus(network),
        }
    }
}

impl DeepView for Junction {
    type V = JunctionView;

    open spec fn deep_view(&self) -> JunctionView {
        self@
    }
}

impl JunctionView {
    /// Whether this junction names a chain.
    pub open spec fn is_chain(self) -> bool {
        self is Allychain
    }
}

impl PartialEq for Junction {
    /// Whether both are of the same kind and hold the same data.
    fn eq(&self, other: &Junction) -> (same: bool)
        ensures
            same == (self@ == other@),
    {
        match (self, other) {
            (Junction::Allychain(a), Junction::Allychain(b)) => *a == *b,
            (
                Junction::AccountId32 { network: n1, id: i1 },
                Junction::AccountId32 { network: n2, id: i2 },
            ) => *n1 == *n2 && same_bytes(i1, i2),
            (
                Junction::AccountIndex64 { network: n1, index: i1 },
                Junction::AccountIndex64 { network: n2, index: i2 },
            ) => *n1 == *n2 && *i1 == *i2,
            (
                Junction::AccountKey20 { network: n1, key: k1 },
                Junction::AccountKey20 { network: n2, key: k2 },
            ) => *n1 == *n2 && same_bytes(k1, k2),
            (Junction::PalletInstance(a), Junction::PalletInstance(b)) => *a == *b,
            (Junction::GeneralIndex(a), Junction::GeneralIndex(b)) => *a == *b,
            (Junction::GeneralKey(a), Junction::GeneralKey(b)) => {
                let same = a == b;
                assert(same == (a@ =~= b@));
                same
            },
            (Junction::OnlyChild, Junction::OnlyChild) => true,
            (
                Junction::Plurality { id: i1, part: p1 },
                Junction::Plurality { id: i2, part: p2 },
            ) => *i1 == *i2 && *p1 == *p2,
            (Junction::GlobalConsensus(a), Junction::GlobalConsensus(b)) => *a == *b,
            _ => false,
        }
    }
}

impl vstd::std_specs::cmp::PartialEqSpecImpl for Junction {
    open spec fn obeys_eq_spec() -> bool {
        true
    }

    open spec fn eq_spec(&self, other: &Junction) -> bool {
        self@ == other@
    }
}

impl Clone for Junction {
    /// A copy with the same value.
    fn clone(&self) -> (copy: Junction)
        ensures
            copy@ == self@,
    {
        match self {
            Junction::Allychain(id) => Junction::Allychain(*id),
            Junction::AccountId32 { network, id } => Junction::AccountId32 {
                network: *network,
                id: *id,
            },
            Junction::AccountIndex64 { network, index } => Junction::AccountIndex64 {
                network: *network,
                index: *index,
            },
            Junction::AccountKey20 { network, key } => Junction::AccountKey20 {
                network: *network,
                key: *key,
            },
            Junction::PalletInstance(index) => Junction::PalletInstance(*index),
            Junction::GeneralIndex(index) => Junction::GeneralIndex(*index),
            Junction::GeneralKey(key) => Junction::GeneralKey(key.clone()),
            Junction::OnlyChild => Junction::OnlyChild,
            Junction::Plurality { id, part } => Junction::Plurality { id: *id, part: *part },
            Junction::GlobalConsensus(network) => Junction::GlobalConsensus(*network),
        }
    }
}

} // verus!
