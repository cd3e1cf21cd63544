//! A hierarchical address: a number of levels to go up, then a path down.

use crate::junction::{Junction, JunctionView};
use vstd::prelude::*;
use vstd::std_specs::cmp::PartialEqSpec;

verus! {

/// A location relative to the current chain: `parents` levels up towards a
/// common ancestor, then down along `interior`.
#[derive(Eq, Debug)]
pub struct MultiLocation {
    /// How many levels to ascend.
    pub parents: u8,
    /// The path to descend from there, outermost junction first.
    pub interior: Vec<Junction>,
}

/// The mathematical value of a [`MultiLocation`].
pub struct LocationView {
    pub parents: u8,
    pub interior: Seq<JunctionView>,
}

impl View for MultiLocation {
    type V = LocationView;

    open spec fn view(&self) -> LocationView {
        LocationView { parents: self.parents, interior: self.interior.deep_view() }
    }
}

impl DeepView for MultiLocation {
    type V = LocationView;

    open spec fn deep_view(&self) -> LocationView {
        self@
    }
}

impl LocationView {
    /// The first junction of the descent, if there is any.
    pub open spec fn first_interior(self) -> Option<JunctionView> {
        if self.interior.len() > 0 {
            Some(self.interior[0])
        } else {
            None
        }
    }
}

/// Two locations have the same value exactly when they go up as many levels
/// and then down along junctions that are equal one by one.
pub proof fn lemma_location_equality(a: LocationView, b: LocationView)
    ensures
        a == b <==> {
            &&& a.parents == b.parents
            &&& a.interior.len() == b.interior.len()
            &&& forall|i: int| 0 <= i < a.interior.len() ==> a.interior[i] == b.interior[i]
        },
{
    if a.interior.len() == b.interior.len() && (forall|i: int|
        0 <= i < a.interior.len() ==> a.interior[i] == b.interior[i]) {
        assert(a.interior =~= b.interior);
    }
}

impl MultiLocation {
    /// The location `parents` levels up and then down along `interior`.
    pub fn new(parents: u8, interior: Vec<Junction>) -> (location: MultiLocation)
        ensures
            location.parents == parents,
            location.interior == interior,
            location@ == (LocationView { parents, interior: interior.deep_view() }),
    {
        MultiLocation { parents, interior }
    }

    /// The parent of the current chain: one level up, nothing down.
    pub fn parent() -> (location: MultiLocation)
        ensures
            location@ == (LocationView { parents: 1, interior: Seq::empty() }),
    {
        let location = MultiLocation { parents: 1, interior: Vec::new() };
        assert(location.interior.deep_view() =~= Seq::<JunctionView>::empty());
        location
    }

    /// The first junction of the descent, or `None` where the location only
    /// goes up.
    pub fn first_interior(&self) -> (first: Option<&Junction>)
        ensures
            first.deep_view() == self@.first_interior(),
            first matches Some(junction) ==> *junction == self.interior[0],
    {
        self.interior.first()
    }
}

impl PartialEq for MultiLocation {
    /// Whether both go up as many levels and then down along equal junctions.
    fn eq(&self, other: &MultiLocation) -> (same: bool)
        ensures
            same == (self@ == other@),
    {
        let same_interior = self.interior == other.interior;
        proof {
            let a = self.interior;
            let b = other.interior;
            if same_interior {
                assert forall|i: int| 0 <= i < a.len() implies a.deep_view()[i]
                    == b.deep_view()[i] by {
                    assert(a[i].eq_spec(&b[i]));
                }
                assert(a.deep_view() =~= b.deep_view());
            } else if a.deep_view() == b.deep_view() {
                assert(a.len() == a.deep_view().len());
                assert(b.len() == b.deep_view().len());
                assert forall|i: int| 0 <= i < a.len() implies a[i].eq_spec(&b[i]) by {
                    assert(a.deep_view()[i] == b.deep_view()[i]);
                }
            }
        }
        self.parents == other.parents && same_interior
    }
}

impl vstd::std_specs::cmp::PartialEqSpecImpl for MultiLocation {
    open spec fn obeys_eq_spec() -> bool {
        true
    }

    open spec fn eq_spec(&self, other: &MultiLocation) -> bool {
        self@ == other@
    }
}

impl Clone for MultiLocation {
    /// A copy with the same value.
    fn clone(&self) -> (copy: MultiLocation)
        ensures
            copy@ == self@,
    {
        let interior = self.interior.clone();
        assert(interior.deep_view() =~= self.interior.deep_view());
        MultiLocation { parents: self.parents, interior }
    }
}

} // verus!
