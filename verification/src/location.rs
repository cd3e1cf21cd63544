//! Splitting a location into the chain it lies on and what it names on that
//! chain, and finding the reserve of an asset.

use crate::junction::{Junction, JunctionView};
use crate::multiasset::{AssetId, AssetIdView, AssetView, MultiAsset};
use crate::multilocation::{LocationView, MultiLocation};
use vstd::prelude::*;

verus! {

/// The location of the chain with the given id, `parents` levels up.
pub open spec fn chain_location(parents: u8, id: u32) -> LocationView {
    LocationView { parents, interior: seq![JunctionView::Allychain(id)] }
}

/// The location of the parent chain.
pub open spec fn parent_location() -> LocationView {
    LocationView { parents: 1, interior: Seq::empty() }
}

/// The chain that `location` lies on.
///
/// One level up, a leading chain junction names a sibling chain, and anything
/// else leaves the parent itself. No level up, a leading chain junction names
/// a child chain, and anything else names no chain. Further up no chain is
/// named. Junctions behind the first are not looked at.
pub open spec fn chain_part_of(location: LocationView) -> Option<LocationView> {
    match location.first_interior() {
        Some(JunctionView::Allychain(id)) => if location.parents <= 1 {
            Some(chain_location(location.parents, id))
        } else {
            None
        },
        _ => if location.parents == 1 {
            Some(parent_location())
        } else {
            None
        },
    }
}

/// Whether exactly the first `k` of `junctions` name chains: each of them
/// does, and the junction after them, if there is one, does not.
pub open spec fn is_chain_prefix(junctions: Seq<JunctionView>, k: int) -> bool {
    &&& 0 <= k <= junctions.len()
    &&& forall|i: int| 0 <= i < k ==> (#[trigger] junctions[i]).is_chain()
    &&& k < junctions.len() ==> !junctions[k].is_chain()
}

/// How many junctions at the start of `junctions` name chains.
pub open spec fn chain_prefix_len(junctions: Seq<JunctionView>) -> nat
    decreases junctions.len(),
{
    if junctions.len() > 0 && junctions[0].is_chain() {
        1 + chain_prefix_len(junctions.drop_first())
    } else {
        0
    }
}

/// What is left of `junctions` behind its first `k`, as a location on the
/// current chain; nothing where no junction is left.
pub open spec fn remainder_after(junctions: Seq<JunctionView>, k: int) -> Option<LocationView> {
    if k >= junctions.len() {
        None
    } else {
        Some(LocationView { parents: 0, interior: junctions.skip(k) })
    }
}

/// What `location` names behind all of its leading chain junctions. The
/// number of parents plays no part in it.
pub open spec fn non_chain_part_of(location: LocationView) -> Option<LocationView> {
    remainder_after(location.interior, chain_prefix_len(location.interior) as int)
}

/// The reserve of `asset`: the chain of the location that identifies it, and
/// none for an asset that no location identifies.
pub open spec fn reserve_of(asset: AssetView) -> Option<LocationView> {
    match asset.id {
        AssetIdView::Concrete(location) => chain_part_of(location),
        AssetIdView::Abstract(_) => None,
    }
}

/// The location of the key `general_key` on the sibling chain `para_id`.
pub open spec fn sibling_general_key_location(para_id: u32, general_key: Seq<u8>) -> LocationView {
    LocationView {
        parents: 1,
        interior: seq![JunctionView::Allychain(para_id), JunctionView::GeneralKey(general_key)],
    }
}

/// The leading chain junctions of a sequence have exactly one length, and
/// `chain_prefix_len` is that length.
pub proof fn lemma_chain_prefix_len(junctions: Seq<JunctionView>)
    ensures
        is_chain_prefix(junctions, chain_prefix_len(junctions) as int),
        forall|k: int| is_chain_prefix(junctions, k) ==> k == chain_prefix_len(junctions),
    decreases junctions.len(),
{
    if junctions.len() > 0 && junctions[0].is_chain() {
        let rest = junctions.drop_first();
        let n = chain_prefix_len(junctions) as int;
        lemma_chain_prefix_len(rest);
        assert forall|i: int| 0 <= i < n implies (#[trigger] junctions[i]).is_chain() by {
            if i > 0 {
                assert(junctions[i] == rest[i - 1]);
            }
        }
        assert forall|k: int| is_chain_prefix(junctions, k) implies k == n by {
            assert(is_chain_prefix(rest, k - 1));
        }
    }
}

/// The chain part of a location depends on its number of parents and its
/// first junction alone.
pub proof fn lemma_chain_part_reads_first_junction_only(a: LocationView, b: LocationView)
    requires
        a.parents == b.parents,
        a.first_interior() == b.first_interior(),
    ensures
        chain_part_of(a) == chain_part_of(b),
{
}

/// The non-chain part of a location depends on its junctions alone.
pub proof fn lemma_non_chain_part_ignores_parents(a: LocationView, b: LocationView)
    requires
        a.interior == b.interior,
    ensures
        non_chain_part_of(a) == non_chain_part_of(b),
{
}

/// The chain part of a location names a chain and nothing on it: it is its
/// own chain part, and it has no non-chain part.
pub proof fn lemma_chain_part_is_chain_only(location: LocationView)
    ensures
        chain_part_of(location) matches Some(chain) ==> {
            &&& chain_part_of(chain) == Some(chain)
            &&& non_chain_part_of(chain) is None
        },
{
    if let Some(chain) = chain_part_of(location) {
        if chain.interior.len() > 0 {
            assert(chain_prefix_len(chain.interior.drop_first()) == 0);
        }
    }
}

/// The non-chain part of a location lies on the current chain and names no
/// chain: it has no chain part, and it is its own non-chain part.
pub proof fn lemma_non_chain_part_is_chain_free(location: LocationView)
    ensures
        non_chain_part_of(location) matches Some(rest) ==> {
            &&& rest.parents == 0
            &&& rest.interior.len() > 0
            &&& !rest.interior[0].is_chain()
            &&& chain_part_of(rest) is None
            &&& non_chain_part_of(rest) == Some(rest)
        },
{
    lemma_chain_prefix_len(location.interior);
    if let Some(rest) = non_chain_part_of(location) {
        assert(rest.interior.skip(0) =~= rest.interior);
    }
}

/// A key on a sibling chain has that chain as its chain part and the key as
/// its non-chain part.
pub proof fn lemma_sibling_general_key_parts(para_id: u32, general_key: Seq<u8>)
    ensures
        chain_part_of(sibling_general_key_location(para_id, general_key)) == Some(
            chain_location(1, para_id),
        ),
        non_chain_part_of(sibling_general_key_location(para_id, general_key)) == Some(
            LocationView { parents: 0, interior: seq![JunctionView::GeneralKey(general_key)] },
        ),
{
    let location = sibling_general_key_location(para_id, general_key);
    lemma_chain_prefix_len(location.interior);
    assert(location.interior.skip(1) =~= seq![JunctionView::GeneralKey(general_key)]);
}

/// An asset that a location identifies has the chain part of that location
/// as its reserve, and an asset that no location identifies has none.
pub proof fn lemma_reserve_is_chain_part(asset: AssetView)
    ensures
        asset.id matches AssetIdView::Concrete(location) ==> reserve_of(asset) == chain_part_of(
            location,
        ),
        asset.id is Abstract ==> reserve_of(asset) is None,
{
}

/// Whether `junction` is there and names a chain.
fn is_chain_junction(junction: Option<&Junction>) -> (is_chain: bool)
    ensures
        is_chain == (junction matches Some(j) && j@.is_chain()),
{
    matches!(junction, Some(Junction::Allychain(_)))
}

/// Splitting a location into its chain and what it names on that chain.
pub trait Parse {
    /// The location that `self` stands for.
    spec fn location(&self) -> LocationView;

    /// The chain that the location lies on: the parent, a sibling chain or a
    /// child chain; `None` where it names no chain.
    fn chain_part(&self) -> (part: Option<MultiLocation>)
        ensures
            part.deep_view() == chain_part_of(self.location()),
    ;

    /// What the location names behind all of its leading chain junctions, as
    /// a location on the current chain; `None` where nothing follows them.
    fn non_chain_part(&self) -> (part: Option<MultiLocation>)
        ensures
            part.deep_view() == non_chain_part_of(self.location()),
    ;
}

impl Parse for MultiLocation {
    open spec fn location(&self) -> LocationView {
        self@
    }

    fn chain_part(&self) -> (part: Option<MultiLocation>)
        ensures
            part.deep_view() == chain_part_of(self@),
            // One level up, in front of a chain junction: that sibling chain.
            self.parents == 1 ==> (self@.first_interior() matches Some(JunctionView::Allychain(id))
                ==> part.deep_view() == Some(chain_location(1, id))),
            // One level up, in front of anything else or of nothing: the parent.
            self.parents == 1 && !(self@.first_interior() matches Some(first) && first.is_chain())
                ==> part.deep_view() == Some(parent_location()),
            // No level up, in front of a chain junction: that child chain.
            self.parents == 0 ==> (self@.first_interior() matches Some(JunctionView::Allychain(id))
                ==> part.deep_view() == Some(chain_location(0, id))),
            // No level up, in front of anything else or of nothing: no chain.
            self.parents == 0 && !(self@.first_interior() matches Some(first) && first.is_chain())
                ==> part is None,
            // Further up: no chain.
            self.parents > 1 ==> part is None,
    {
        match (self.parents, self.first_interior()) {
            (1, Some(Junction::Allychain(id))) => {
                let interior = vec![Junction::Allychain(*id)];
                assert(interior.deep_view() =~= seq![JunctionView::Allychain(*id)]);
                Some(MultiLocation::new(1, interior))
            },
            (1, _) => Some(MultiLocation::parent()),
            (0, Some(Junction::Allychain(id))) => {
                let interior = vec![Junction::Allychain(*id)];
                assert(interior.deep_view() =~= seq![JunctionView::Allychain(*id)]);
                Some(MultiLocation::new(0, interior))
            },
            _ => None,
        }
    }

    fn non_chain_part(&self) -> (part: Option<MultiLocation>)
        ensures
            part.deep_view() == non_chain_part_of(self@),
            // Where every junction names a chain, nothing is left.
            (forall|i: int|
                0 <= i < self@.interior.len() ==> (#[trigger] self@.interior[i]).is_chain())
                ==> part is None,
            // Where the first `k` junctions are the leading chain junctions,
            // what is left are the junctions behind them, with no parents.
            forall|k: int| #[trigger]
                is_chain_prefix(self@.interior, k) ==> part.deep_view() == remainder_after(
                    self@.interior,
                    k,
                ),
            // What is left does not begin with a chain junction.
            part matches Some(rest) ==> rest.parents == 0 && rest@.interior.len() > 0
                && !rest@.interior[0].is_chain(),
    {
        let mut junctions = self.interior.clone();
        let ghost mut stripped: int = 0;
        while is_chain_junction(junctions.first())
            invariant
                0 <= stripped <= self@.interior.len(),
                junctions.deep_view() == self@.interior.skip(stripped),
                forall|i: int| 0 <= i < stripped ==> (#[trigger] self@.interior[i]).is_chain(),
            decreases junctions.len(),
        {
            assert(junctions.deep_view().len() > 0);
            assert(junctions.deep_view()[0] == self@.interior[stripped]);
            let ghost before = junctions.deep_view();
            let _ = junctions.remove(0);
            proof {
                assert(before.skip(1) =~= self@.interior.skip(stripped + 1));
                stripped = stripped + 1;
            }
        }
        proof {
            if junctions.len() > 0 {
                assert(junctions.deep_view()[0] == self@.interior[stripped]);
            }
            lemma_chain_prefix_len(self@.interior);
        }
        if junctions.len() != 0 {
            Some(MultiLocation::new(0, junctions))
        } else {
            None
        }
    }
}

/// Finding where an asset is held in reserve.
pub trait Reserve {
    /// The asset that `self` stands for.
    spec fn asset(&self) -> AssetView;

    /// The reserve location of the asset, if it has one.
    fn reserve(&self) -> (reserve: Option<MultiLocation>)
        ensures
            reserve.deep_view() == reserve_of(self.asset()),
    ;
}

impl Reserve for MultiAsset {
    open spec fn asset(&self) -> AssetView {
        self@
    }

    fn reserve(&self) -> (reserve: Option<MultiLocation>)
        ensures
            reserve.deep_view() == reserve_of(self@),
            // An asset that a location identifies is held on the chain of
            // that location.
            self.id matches AssetId::Concrete(location) ==> reserve.deep_view() == chain_part_of(
                location@,
            ),
            // Any other asset has no reserve.
            self.id is Abstract ==> reserve is None,
    {
        if let AssetId::Concrete(location) = &self.id {
            location.chain_part()
        } else {
            None
        }
    }
}

/// Building locations that are relative to the current chain.
pub trait RelativeLocations {
    /// The location of the key `general_key` on the sibling chain `para_id`:
    /// one level up, then that chain, then the key. Every id and every key is
    /// taken as it is.
    fn sibling_allychain_general_key(para_id: u32, general_key: Vec<u8>) -> (location:
        MultiLocation)
        ensures
            location@ == sibling_general_key_location(para_id, general_key@),
    ;
}

impl RelativeLocations for MultiLocation {
    fn sibling_allychain_general_key(para_id: u32, general_key: Vec<u8>) -> (location:
        MultiLocation)
        ensures
            location@ == sibling_general_key_location(para_id, general_key@),
            location.parents == 1,
            location.interior@.len() == 2,
            location.interior@[0]@ == JunctionView::Allychain(para_id),
            location.interior@[1]@ == JunctionView::GeneralKey(general_key@),
    {
        let ghost key = general_key@;
        let interior = vec![Junction::Allychain(para_id), Junction::GeneralKey(general_key)];
        assert(interior.deep_view() =~= seq![
            JunctionView::Allychain(para_id),
            JunctionView::GeneralKey(key),
        ]);
        MultiLocation::new(1, interior)
    }
}

} // verus!
