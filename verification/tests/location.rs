use psp22_chain_ext::location::{
    matches_prefix, AssetId, Fungibility, Junction, MultiAsset, MultiLocation, ReserveAssetsFrom,
};

fn statemine() -> MultiLocation {
    MultiLocation { parents: 1, interior: vec![Junction::Parachain(1000)] }
}

fn asset_under(loc: MultiLocation, amount: u128) -> MultiAsset {
    MultiAsset { id: AssetId::Concrete(loc), fun: Fungibility::Fungible(amount) }
}

#[test]
fn prefix_matches_a_longer_path() {
    let prefix = statemine();
    let loc = MultiLocation {
        parents: 1,
        interior: vec![
            Junction::Parachain(1000),
            Junction::PalletInstance(50),
            Junction::GeneralIndex(1),
        ],
    };
    assert!(matches_prefix(&prefix, &loc));
    assert!(matches_prefix(&prefix, &prefix));
}

#[test]
fn prefix_needs_equal_parent_counts() {
    let prefix = statemine();
    let loc = MultiLocation { parents: 0, interior: vec![Junction::Parachain(1000)] };
    assert!(!matches_prefix(&prefix, &loc));
}

#[test]
fn prefix_fails_on_a_diverging_junction() {
    let prefix = statemine();
    let loc = MultiLocation {
        parents: 1,
        interior: vec![Junction::Parachain(2000), Junction::PalletInstance(50)],
    };
    assert!(!matches_prefix(&prefix, &loc));
}

#[test]
fn prefix_longer_than_the_path_never_matches() {
    let prefix = MultiLocation {
        parents: 1,
        interior: vec![Junction::Parachain(1000), Junction::PalletInstance(50)],
    };
    assert!(!matches_prefix(&prefix, &statemine()));
}

#[test]
fn filter_accepts_fungibles_under_the_trusted_origin() {
    let filter = ReserveAssetsFrom::new(statemine());
    let under = MultiLocation {
        parents: 1,
        interior: vec![
            Junction::Parachain(1000),
            Junction::PalletInstance(50),
            Junction::GeneralIndex(1),
        ],
    };
    assert!(filter.filter_asset_location(&asset_under(under, 10), &statemine()));
}

#[test]
fn filter_refuses_other_origins() {
    let filter = ReserveAssetsFrom::new(statemine());
    let under = MultiLocation {
        parents: 1,
        interior: vec![Junction::Parachain(1000), Junction::GeneralIndex(1)],
    };
    let elsewhere = MultiLocation { parents: 1, interior: vec![Junction::Parachain(2000)] };
    assert!(!filter.filter_asset_location(&asset_under(under, 10), &elsewhere));
}

#[test]
fn filter_refuses_assets_outside_the_origin() {
    let filter = ReserveAssetsFrom::new(statemine());
    let outside = MultiLocation {
        parents: 1,
        interior: vec![Junction::Parachain(2000), Junction::GeneralIndex(1)],
    };
    assert!(!filter.filter_asset_location(&asset_under(outside, 10), &statemine()));
}

#[test]
fn filter_refuses_non_fungible_and_abstract_assets() {
    let filter = ReserveAssetsFrom::new(statemine());
    let non_fungible = MultiAsset {
        id: AssetId::Concrete(statemine()),
        fun: Fungibility::NonFungible,
    };
    assert!(!filter.filter_asset_location(&non_fungible, &statemine()));
    let abstract_asset = MultiAsset {
        id: AssetId::Abstract(vec![1, 2, 3]),
        fun: Fungibility::Fungible(10),
    };
    assert!(!filter.filter_asset_location(&abstract_asset, &statemine()));
}
