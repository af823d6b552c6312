//! Reserve-location filtering over modeled cross-chain locations.
//!
//! A location names a place in the chain hierarchy: how many parent hops to
//! take, then a path of junctions downward. The bridge's runtime accepts a
//! reserve asset only when it comes from a trusted origin and its own
//! location sits under that origin — a prefix check over the junction path.

use vstd::prelude::*;

verus! {

/// One step of a location path.
#[derive(Clone, Copy, Debug, PartialEq, Eq, Structural)]
pub enum Junction {
    /// A sibling or child parachain, by index.
    Parachain(u32),
    /// A pallet instance inside a chain, by index.
    PalletInstance(u8),
    /// A general index under a pallet, such as an asset index.
    GeneralIndex(u128),
}

/// A location in the chain hierarchy: `parents` hops up, then the junction
/// path down.
#[derive(Clone, Debug)]
pub struct MultiLocation {
    pub parents: u8,
    pub interior: Vec<Junction>,
}

/// The mathematical view of a location.
pub struct LocationView {
    pub parents: u8,
    pub interior: Seq<Junction>,
}

impl View for MultiLocation {
    type V = LocationView;

    open spec fn view(&self) -> LocationView {
        LocationView { parents: self.parents, interior: self.interior@ }
    }
}

/// Whether an asset counts as fungible.
#[derive(Clone, Copy, Debug, PartialEq, Eq, Structural)]
pub enum Fungibility {
    Fungible(u128),
    NonFungible,
}

/// How an asset is identified: by the concrete location it lives at, or by
/// an abstract tag.
#[derive(Clone, Debug)]
pub enum AssetId {
    Concrete(MultiLocation),
    Abstract(Vec<u8>),
}

/// The mathematical view of an asset identifier.
pub enum AssetIdView {
    Concrete(LocationView),
    Abstract(Seq<u8>),
}

impl View for AssetId {
    type V = AssetIdView;

    open spec fn view(&self) -> AssetIdView {
        match self {
            AssetId::Concrete(loc) => AssetIdView::Concrete(loc@),
            AssetId::Abstract(tag) => AssetIdView::Abstract(tag@),
        }
    }
}

/// An asset: its identifier and its fungibility.
#[derive(Clone, Debug)]
pub struct MultiAsset {
    pub id: AssetId,
    pub fun: Fungibility,
}

/// The mathematical view of an asset.
pub struct MultiAssetView {
    pub id: AssetIdView,
    pub fun: Fungibility,
}

impl View for MultiAsset {
    type V = MultiAssetView;

    open spec fn view(&self) -> MultiAssetView {
        MultiAssetView { id: self.id@, fun: self.fun }
    }
}

/// Whether `prefix` stands above `loc`: the same number of parent hops, and
/// every junction of the prefix path matches the start of `loc`'s path.
pub open spec fn spec_matches_prefix(prefix: LocationView, loc: LocationView) -> bool {
    prefix.parents == loc.parents && prefix.interior.is_prefix_of(loc.interior)
}

/// Whether two locations are the same place.
pub open spec fn spec_location_eq(a: LocationView, b: LocationView) -> bool {
    a.parents == b.parents && a.interior == b.interior
}

/// The reserve filter: accept exactly the fungible assets whose concrete
/// location sits under `prefix`, when they arrive from `prefix` itself.
pub open spec fn spec_filter_asset_location(
    prefix: LocationView,
    asset: MultiAssetView,
    origin: LocationView,
) -> bool {
    spec_location_eq(prefix, origin) && match asset.id {
        AssetIdView::Concrete(loc) => (asset.fun matches Fungibility::Fungible(_))
            && spec_matches_prefix(prefix, loc),
        AssetIdView::Abstract(_) => false,
    }
}

/// Compares two locations.
pub fn location_eq(a: &MultiLocation, b: &MultiLocation) -> (r: bool)
    ensures
        r == spec_location_eq(a@, b@),
{
    if a.parents != b.parents {
        return false;
    }
    if a.interior.len() != b.interior.len() {
        return false;
    }
    let n: usize = a.interior.len();
    let mut i: usize = 0;
    while i < n
        invariant
            i <= n,
            n == a@.interior.len(),
            n == b@.interior.len(),
            forall|j: int| 0 <= j < i ==> a@.interior[j] == b@.interior[j],
        decreases n - i,
    {
        if a.interior[i] != b.interior[i] {
            return false;
        }
        i = i + 1;
    }
    proof {
        assert(a@.interior =~= b@.interior);
    }
    true
}

/// Decides [`spec_matches_prefix`] over two locations.
pub fn matches_prefix(prefix: &MultiLocation, loc: &MultiLocation) -> (r: bool)
    ensures
        r == spec_matches_prefix(prefix@, loc@),
{
    if prefix.parents != loc.parents {
        return false;
    }
    if prefix.interior.len() > loc.interior.len() {
        return false;
    }
    let n: usize = prefix.interior.len();
    let mut i: usize = 0;
    while i < n
        invariant
            i <= n,
            n == prefix@.interior.len(),
            n <= loc@.interior.len(),
            forall|j: int| 0 <= j < i ==> prefix@.interior[j] == loc@.interior[j],
        decreases n - i,
    {
        if prefix.interior[i] != loc.interior[i] {
            proof {
                assert(!prefix@.interior.is_prefix_of(loc@.interior)) by {
                    assert(prefix@.interior[i as int] != loc@.interior.take(n as int)[i as int]);
                }
            }
            return false;
        }
        i = i + 1;
    }
    proof {
        assert(prefix@.interior =~= loc@.interior.take(n as int));
    }
    true
}

/// The reserve filter, carrying the trusted prefix location it was
/// configured with.
pub struct ReserveAssetsFrom {
    pub prefix: MultiLocation,
}

impl ReserveAssetsFrom {
    /// A filter trusting reserves under `prefix`.
    pub fn new(prefix: MultiLocation) -> (r: ReserveAssetsFrom)
        ensures
            r.prefix@ == prefix@,
    {
        ReserveAssetsFrom { prefix }
    }

    /// Accepts exactly the fungible assets whose concrete location sits
    /// under the configured prefix, arriving from that prefix itself.
    pub fn filter_asset_location(&self, asset: &MultiAsset, origin: &MultiLocation) -> (r: bool)
        ensures
            r == spec_filter_asset_location(self.prefix@, asset@, origin@),
    {
        if !location_eq(&self.prefix, origin) {
            return false;
        }
        match &asset.id {
            AssetId::Concrete(loc) => match &asset.fun {
                Fungibility::Fungible(_) => matches_prefix(&self.prefix, loc),
                Fungibility::NonFungible => false,
            },
            AssetId::Abstract(_) => false,
        }
    }
}

} // verus!
