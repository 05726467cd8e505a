use upgrade_dryrun::locks::{
    CollectionConfig, CollectionDetails, CollectionRole, ItemConfig, NftError, NftEvent, Pallet,
    PalletFeature, PalletFeatures,
};

fn features_all_enabled() -> PalletFeatures {
    PalletFeatures {
        trading_disabled: false,
        attributes_disabled: false,
        approvals_disabled: false,
        swaps_disabled: false,
    }
}

fn open_collection_config() -> CollectionConfig {
    CollectionConfig {
        transferable_items_disabled: false,
        unlocked_metadata_disabled: false,
        unlocked_attributes_disabled: false,
    }
}

fn open_item_config() -> ItemConfig {
    ItemConfig {
        transferable_disabled: false,
        unlocked_metadata_disabled: false,
        unlocked_attributes_disabled: false,
    }
}

fn pallet_with_collection() -> Pallet {
    let mut p = Pallet::new(features_all_enabled());
    p.collections.push((7, CollectionDetails { owner: 1 }));
    p.collection_configs.push((7, open_collection_config()));
    p.item_configs.push(((7, 42), open_item_config()));
    p.roles.push((7, 2, CollectionRole::Freezer));
    p
}

#[test]
fn lock_collection_requires_freezer_role() {
    let mut p = pallet_with_collection();
    let lock = CollectionConfig {
        transferable_items_disabled: true,
        unlocked_metadata_disabled: false,
        unlocked_attributes_disabled: false,
    };
    // account 1 owns the collection but holds no Freezer role
    assert_eq!(p.do_lock_collection(1, 7, lock), Err(NftError::NoPermission));
    assert_eq!(p.get_collection_config(7), Ok(open_collection_config()));
}

#[test]
fn lock_collection_disables_only_locked_settings() {
    let mut p = pallet_with_collection();
    let lock = CollectionConfig {
        transferable_items_disabled: true,
        unlocked_metadata_disabled: true,
        unlocked_attributes_disabled: false,
    };
    assert_eq!(p.do_lock_collection(2, 7, lock), Ok(NftEvent::CollectionLocked { collection: 7 }));
    let cfg = p.get_collection_config(7).unwrap();
    assert!(cfg.transferable_items_disabled);
    assert!(cfg.unlocked_metadata_disabled);
    assert!(!cfg.unlocked_attributes_disabled);
}

#[test]
fn lock_collection_without_config_fails() {
    let mut p = pallet_with_collection();
    p.roles.push((9, 2, CollectionRole::Freezer));
    assert_eq!(p.do_lock_collection(2, 9, open_collection_config()), Err(NftError::NoConfig));
}

#[test]
fn lock_and_unlock_item_transfer() {
    let mut p = pallet_with_collection();
    assert_eq!(
        p.do_lock_item_transfer(2, 7, 42),
        Ok(NftEvent::ItemTransferLocked { collection: 7, item: 42 })
    );
    assert!(p.get_item_config(7, 42).unwrap().transferable_disabled);
    assert_eq!(
        p.do_unlock_item_transfer(2, 7, 42),
        Ok(NftEvent::ItemTransferUnlocked { collection: 7, item: 42 })
    );
    assert!(!p.get_item_config(7, 42).unwrap().transferable_disabled);
}

#[test]
fn item_transfer_lock_requires_role_and_item() {
    let mut p = pallet_with_collection();
    assert_eq!(p.do_lock_item_transfer(3, 7, 42), Err(NftError::NoPermission));
    assert_eq!(p.do_lock_item_transfer(2, 7, 43), Err(NftError::UnknownItem));
}

#[test]
fn lock_item_properties_checks_owner() {
    let mut p = pallet_with_collection();
    // account 2 is not the collection owner
    assert_eq!(
        p.do_lock_item_properties(Some(2), 7, 42, true, true),
        Err(NftError::NoPermission)
    );
    // the owner may lock
    assert_eq!(
        p.do_lock_item_properties(Some(1), 7, 42, true, false),
        Ok(NftEvent::ItemPropertiesLocked {
            collection: 7,
            item: 42,
            lock_metadata: true,
            lock_attributes: false,
        })
    );
    let cfg = p.get_item_config(7, 42).unwrap();
    assert!(cfg.unlocked_metadata_disabled);
    assert!(!cfg.unlocked_attributes_disabled);
    assert!(!cfg.transferable_disabled);
}

#[test]
fn lock_item_properties_without_owner_check() {
    let mut p = pallet_with_collection();
    assert_eq!(
        p.do_lock_item_properties(None, 7, 42, false, true),
        Ok(NftEvent::ItemPropertiesLocked {
            collection: 7,
            item: 42,
            lock_metadata: false,
            lock_attributes: true,
        })
    );
    assert!(p.get_item_config(7, 42).unwrap().unlocked_attributes_disabled);
}

#[test]
fn lock_item_properties_unknown_collection() {
    let mut p = pallet_with_collection();
    assert_eq!(
        p.do_lock_item_properties(None, 8, 42, true, true),
        Err(NftError::UnknownCollection)
    );
}

#[test]
fn pallet_feature_switches() {
    let mut f = features_all_enabled();
    f.swaps_disabled = true;
    let p = Pallet::new(f);
    assert!(p.is_pallet_feature_enabled(PalletFeature::Trading));
    assert!(p.is_pallet_feature_enabled(PalletFeature::Attributes));
    assert!(p.is_pallet_feature_enabled(PalletFeature::Approvals));
    assert!(!p.is_pallet_feature_enabled(PalletFeature::Swaps));
}
