//! Permission-gated configuration toggles: locking a collection's
//! settings, locking and unlocking an item's transferability, and locking
//! an item's metadata and attributes. Every mutating operation first
//! consults a pure role predicate over an explicit role-assignment store.

use vstd::prelude::*;

use crate::store::{
    kv2_inject, kv2_lookup, kv2_set, kv2_unique, kv_inject, kv_lookup, kv_set, kv_unique, kv_get,
    kv2_get,
};

verus! {

/// A capability an account can hold on a collection.
#[derive(Clone, Copy, Debug, PartialEq, Eq, Structural)]
pub enum CollectionRole {
    Issuer,
    Freezer,
    Admin,
}

/// A per-collection switch; disabling one locks the behaviour it names.
#[derive(Clone, Copy, Debug, PartialEq, Eq, Structural)]
pub enum CollectionSetting {
    TransferableItems,
    UnlockedMetadata,
    UnlockedAttributes,
}

/// A per-item switch.
#[derive(Clone, Copy, Debug, PartialEq, Eq, Structural)]
pub enum ItemSetting {
    Transferable,
    UnlockedMetadata,
    UnlockedAttributes,
}

/// A feature of the pallet as a whole.
#[derive(Clone, Copy, Debug, PartialEq, Eq, Structural)]
pub enum PalletFeature {
    Trading,
    Attributes,
    Approvals,
    Swaps,
}

/// Which collection settings are disabled; a cleared flag means the
/// setting is enabled.
#[derive(Clone, Copy, Debug, PartialEq, Eq, Structural)]
pub struct CollectionConfig {
    pub transferable_items_disabled: bool,
    pub unlocked_metadata_disabled: bool,
    pub unlocked_attributes_disabled: bool,
}

impl CollectionConfig {
    /// Whether the given setting is disabled.
    pub open spec fn spec_has_disabled(self, s: CollectionSetting) -> bool {
        match s {
            CollectionSetting::TransferableItems => self.transferable_items_disabled,
            CollectionSetting::UnlockedMetadata => self.unlocked_metadata_disabled,
            CollectionSetting::UnlockedAttributes => self.unlocked_attributes_disabled,
        }
    }

    /// Self with the given setting disabled and the others unchanged.
    pub open spec fn spec_disable(self, s: CollectionSetting) -> CollectionConfig {
        match s {
            CollectionSetting::TransferableItems => CollectionConfig {
                transferable_items_disabled: true,
                ..self
            },
            CollectionSetting::UnlockedMetadata => CollectionConfig {
                unlocked_metadata_disabled: true,
                ..self
            },
            CollectionSetting::UnlockedAttributes => CollectionConfig {
                unlocked_attributes_disabled: true,
                ..self
            },
        }
    }

    pub fn has_disabled_setting(&self, s: CollectionSetting) -> (r: bool)
        ensures
            r == self.spec_has_disabled(s),
    {
        match s {
            CollectionSetting::TransferableItems => self.transferable_items_disabled,
            CollectionSetting::UnlockedMetadata => self.unlocked_metadata_disabled,
            CollectionSetting::UnlockedAttributes => self.unlocked_attributes_disabled,
        }
    }

    pub fn disable_setting(&mut self, s: CollectionSetting)
        ensures
            *final(self) == (*old(self)).spec_disable(s),
    {
        match s {
            CollectionSetting::TransferableItems => {
                self.transferable_items_disabled = true;
            },
            CollectionSetting::UnlockedMetadata => {
                self.unlocked_metadata_disabled = true;
            },
            CollectionSetting::UnlockedAttributes => {
                self.unlocked_attributes_disabled = true;
            },
        }
    }
}

/// The collection config after a lock is applied: every setting the lock
/// disables becomes disabled; already-disabled settings stay disabled.
pub open spec fn spec_lock_collection_config(
    cfg: CollectionConfig,
    lock: CollectionConfig,
) -> CollectionConfig {
    CollectionConfig {
        transferable_items_disabled: cfg.transferable_items_disabled
            || lock.transferable_items_disabled,
        unlocked_metadata_disabled: cfg.unlocked_metadata_disabled
            || lock.unlocked_metadata_disabled,
        unlocked_attributes_disabled: cfg.unlocked_attributes_disabled
            || lock.unlocked_attributes_disabled,
    }
}

/// Which item settings are disabled; a cleared flag means the setting is
/// enabled.
#[derive(Clone, Copy, Debug, PartialEq, Eq, Structural)]
pub struct ItemConfig {
    pub transferable_disabled: bool,
    pub unlocked_metadata_disabled: bool,
    pub unlocked_attributes_disabled: bool,
}

impl ItemConfig {
    /// Whether the given setting is disabled.
    pub open spec fn spec_has_disabled(self, s: ItemSetting) -> bool {
        match s {
            ItemSetting::Transferable => self.transferable_disabled,
            ItemSetting::UnlockedMetadata => self.unlocked_metadata_disabled,
            ItemSetting::UnlockedAttributes => self.unlocked_attributes_disabled,
        }
    }

    /// Self with the given setting disabled and the others unchanged.
    pub open spec fn spec_disable(self, s: ItemSetting) -> ItemConfig {
        match s {
            ItemSetting::Transferable => ItemConfig { transferable_disabled: true, ..self },
            ItemSetting::UnlockedMetadata => ItemConfig {
                unlocked_metadata_disabled: true,
                ..self
            },
            ItemSetting::UnlockedAttributes => ItemConfig {
                unlocked_attributes_disabled: true,
                ..self
            },
        }
    }

    /// Self with the given setting enabled and the others unchanged.
    pub open spec fn spec_enable(self, s: ItemSetting) -> ItemConfig {
        match s {
            ItemSetting::Transferable => ItemConfig { transferable_disabled: false, ..self },
            ItemSetting::UnlockedMetadata => ItemConfig {
                unlocked_metadata_disabled: false,
                ..self
            },
            ItemSetting::UnlockedAttributes => ItemConfig {
                unlocked_attributes_disabled: false,
                ..self
            },
        }
    }

    pub fn has_disabled_setting(&self, s: ItemSetting) -> (r: bool)
        ensures
            r == self.spec_has_disabled(s),
    {
        match s {
            ItemSetting::Transferable => self.transferable_disabled,
            ItemSetting::UnlockedMetadata => self.unlocked_metadata_disabled,
            ItemSetting::UnlockedAttributes => self.unlocked_attributes_disabled,
        }
    }

    pub fn disable_setting(&mut self, s: ItemSetting)
        ensures
            *final(self) == (*old(self)).spec_disable(s),
    {
        match s {
            ItemSetting::Transferable => {
                self.transferable_disabled = true;
            },
            ItemSetting::UnlockedMetadata => {
                self.unlocked_metadata_disabled = true;
            },
            ItemSetting::UnlockedAttributes => {
                self.unlocked_attributes_disabled = true;
            },
        }
    }

    pub fn enable_setting(&mut self, s: ItemSetting)
        ensures
            *final(self) == (*old(self)).spec_enable(s),
    {
        match s {
            ItemSetting::Transferable => {
                self.transferable_disabled = false;
            },
            ItemSetting::UnlockedMetadata => {
                self.unlocked_metadata_disabled = false;
            },
            ItemSetting::UnlockedAttributes => {
                self.unlocked_attributes_disabled = false;
            },
        }
    }
}

/// The feature switches the pallet was configured with; a feature is
/// enabled unless disabled here.
#[derive(Clone, Copy, Debug, PartialEq, Eq, Structural)]
pub struct PalletFeatures {
    pub trading_disabled: bool,
    pub attributes_disabled: bool,
    pub approvals_disabled: bool,
    pub swaps_disabled: bool,
}

impl PalletFeatures {
    /// Whether the given feature is enabled.
    pub open spec fn spec_is_enabled(self, f: PalletFeature) -> bool {
        match f {
            PalletFeature::Trading => !self.trading_disabled,
            PalletFeature::Attributes => !self.attributes_disabled,
            PalletFeature::Approvals => !self.approvals_disabled,
            PalletFeature::Swaps => !self.swaps_disabled,
        }
    }

    pub fn is_enabled(&self, f: PalletFeature) -> (r: bool)
        ensures
            r == self.spec_is_enabled(f),
    {
        match f {
            PalletFeature::Trading => !self.trading_disabled,
            PalletFeature::Attributes => !self.attributes_disabled,
            PalletFeature::Approvals => !self.approvals_disabled,
            PalletFeature::Swaps => !self.swaps_disabled,
        }
    }
}

/// What the lock logic reads of a collection's record: its owner.
#[derive(Clone, Copy, Debug, PartialEq, Eq, Structural)]
pub struct CollectionDetails {
    pub owner: u64,
}

/// An account holds a role on a collection exactly when the role store
/// records the triple.
pub open spec fn spec_has_role(
    roles: Seq<(u64, u64, CollectionRole)>,
    collection: u64,
    account: u64,
    role: CollectionRole,
) -> bool {
    exists|i: int|
        0 <= i < roles.len() && roles[i] == (collection, account, role)
}

/// A failure of one of the toggles.
#[derive(Clone, Copy, Debug, PartialEq, Eq, Structural)]
pub enum NftError {
    /// The caller does not hold the required role, or is not the owner.
    NoPermission,
    /// The collection has no config record.
    NoConfig,
    /// No such collection.
    UnknownCollection,
    /// No such item, or the item has no config record.
    UnknownItem,
}

/// The event a successful toggle deposits.
#[derive(Clone, Copy, Debug, PartialEq, Eq, Structural)]
pub enum NftEvent {
    CollectionLocked { collection: u64 },
    ItemTransferLocked { collection: u64, item: u64 },
    ItemTransferUnlocked { collection: u64, item: u64 },
    ItemPropertiesLocked { collection: u64, item: u64, lock_metadata: bool, lock_attributes: bool },
}

/// The explicit stores the toggles run against: collection records and
/// configs keyed by collection id, item configs keyed by (collection,
/// item), the role assignments, and the pallet-wide feature switches.
#[derive(Debug)]
pub struct Pallet {
    pub collections: Vec<(u64, CollectionDetails)>,
    pub collection_configs: Vec<(u64, CollectionConfig)>,
    pub item_configs: Vec<((u64, u64), ItemConfig)>,
    pub roles: Vec<(u64, u64, CollectionRole)>,
    pub features: PalletFeatures,
}

impl Pallet {
    /// The stores' invariant: each map binds a key at most once.
    pub open spec fn wf(self) -> bool {
        &&& kv_unique(self.collections@)
        &&& kv_unique(self.collection_configs@)
        &&& kv2_unique(self.item_configs@)
    }

    /// An empty pallet with the given feature switches.
    pub fn new(features: PalletFeatures) -> (p: Pallet)
        ensures
            p.wf(),
            p.collections@.len() == 0,
            p.collection_configs@.len() == 0,
            p.item_configs@.len() == 0,
            p.roles@.len() == 0,
            p.features == features,
    {
        Pallet {
            collections: Vec::new(),
            collection_configs: Vec::new(),
            item_configs: Vec::new(),
            roles: Vec::new(),
            features,
        }
    }

    /// The pure capability check consulted before every mutating
    /// operation.
    pub fn has_role(&self, collection: u64, account: u64, role: CollectionRole) -> (r: bool)
        ensures
            r == spec_has_role(self.roles@, collection, account, role),
    {
        let n = self.roles.len();
        let mut i: usize = 0;
        while i < n
            invariant
                n == self.roles@.len(),
                i <= n,
                forall|j: int|
                    0 <= j < i ==> self.roles@[j] != (collection, account, role),
            decreases n - i,
        {
            let entry = self.roles[i];
            if entry.0 == collection && entry.1 == account && entry.2 == role {
                return true;
            }
            i += 1;
        }
        false
    }

    /// The config of a collection, or an error when it has none.
    pub fn get_collection_config(&self, collection_id: u64) -> (r: Result<
        CollectionConfig,
        NftError,
    >)
        ensures
            (match kv_lookup(self.collection_configs@, collection_id) {
                Some(c) => r == Ok::<_, NftError>(c),
                None => r == Err::<CollectionConfig, _>(NftError::UnknownCollection),
            }),
    {
        match kv_get(&self.collection_configs, collection_id) {
            Some(c) => Ok(c),
            None => Err(NftError::UnknownCollection),
        }
    }

    /// The config of an item, or an error when it has none.
    pub fn get_item_config(&self, collection_id: u64, item_id: u64) -> (r: Result<
        ItemConfig,
        NftError,
    >)
        ensures
            (match kv2_lookup(self.item_configs@, (collection_id, item_id)) {
                Some(c) => r == Ok::<_, NftError>(c),
                None => r == Err::<ItemConfig, _>(NftError::UnknownItem),
            }),
    {
        match kv2_get(&self.item_configs, (collection_id, item_id)) {
            Some(c) => Ok(c),
            None => Err(NftError::UnknownItem),
        }
    }

    /// Whether a pallet-wide feature is enabled.
    pub fn is_pallet_feature_enabled(&self, feature: PalletFeature) -> (r: bool)
        ensures
            r == self.features.spec_is_enabled(feature),
    {
        self.features.is_enabled(feature)
    }

    /// Locks a collection: disables, irreversibly for this call, every
    /// setting the lock config disables. Requires the Freezer role.
    pub fn do_lock_collection(
        &mut self,
        origin: u64,
        collection: u64,
        lock_config: CollectionConfig,
    ) -> (r: Result<NftEvent, NftError>)
        requires
            old(self).wf(),
        ensures
            final(self).wf(),
            final(self).collections == old(self).collections,
            final(self).item_configs == old(self).item_configs,
            final(self).roles == old(self).roles,
            final(self).features == old(self).features,
            (!spec_has_role(old(self).roles@, collection, origin, CollectionRole::Freezer) ==> r
                == Err::<NftEvent, _>(NftError::NoPermission) && final(self).collection_configs
                == old(self).collection_configs),
            (spec_has_role(old(self).roles@, collection, origin, CollectionRole::Freezer) ==> (
            match kv_lookup(old(self).collection_configs@, collection) {
                None => r == Err::<NftEvent, _>(NftError::NoConfig)
                    && final(self).collection_configs == old(self).collection_configs,
                Some(cfg) => r == Ok::<_, NftError>(NftEvent::CollectionLocked { collection })
                    && final(self).collection_configs@ == kv_inject(
                    old(self).collection_configs@,
                    collection,
                    spec_lock_collection_config(cfg, lock_config),
                ),
            })),
    {
        if !self.has_role(collection, origin, CollectionRole::Freezer) {
            return Err(NftError::NoPermission);
        }
        let maybe_config = kv_get(&self.collection_configs, collection);
        match maybe_config {
            None => Err(NftError::NoConfig),
            Some(cfg) => {
                let mut config = cfg;
                if lock_config.has_disabled_setting(CollectionSetting::TransferableItems) {
                    config.disable_setting(CollectionSetting::TransferableItems);
                }
                if lock_config.has_disabled_setting(CollectionSetting::UnlockedMetadata) {
                    config.disable_setting(CollectionSetting::UnlockedMetadata);
                }
                if lock_config.has_disabled_setting(CollectionSetting::UnlockedAttributes) {
                    config.disable_setting(CollectionSetting::UnlockedAttributes);
                }
                proof {
                    assert(config == spec_lock_collection_config(cfg, lock_config));
                }
                kv_set(&mut self.collection_configs, collection, config);
                Ok(NftEvent::CollectionLocked { collection })
            },
        }
    }

    /// Locks an item's transferability. Requires the Freezer role.
    pub fn do_lock_item_transfer(&mut self, origin: u64, collection: u64, item: u64) -> (r: Result<
        NftEvent,
        NftError,
    >)
        requires
            old(self).wf(),
        ensures
            final(self).wf(),
            final(self).collections == old(self).collections,
            final(self).collection_configs == old(self).collection_configs,
            final(self).roles == old(self).roles,
            final(self).features == old(self).features,
            (!spec_has_role(old(self).roles@, collection, origin, CollectionRole::Freezer) ==> r
                == Err::<NftEvent, _>(NftError::NoPermission) && final(self).item_configs == old(self).item_configs),
            (spec_has_role(old(self).roles@, collection, origin, CollectionRole::Freezer) ==> (
            match kv2_lookup(old(self).item_configs@, (collection, item)) {
                None => r == Err::<NftEvent, _>(NftError::UnknownItem) && final(self).item_configs
                    == old(self).item_configs,
                Some(cfg) => r == Ok::<_, NftError>(NftEvent::ItemTransferLocked {
                    collection,
                    item,
                }) && final(self).item_configs@ == kv2_inject(
                    old(self).item_configs@,
                    (collection, item),
                    cfg.spec_disable(ItemSetting::Transferable),
                ),
            })),
    {
        if !self.has_role(collection, origin, CollectionRole::Freezer) {
            return Err(NftError::NoPermission);
        }
        let maybe_config = self.get_item_config(collection, item);
        match maybe_config {
            Err(e) => Err(e),
            Ok(cfg) => {
                let mut config = cfg;
                if !config.has_disabled_setting(ItemSetting::Transferable) {
                    config.disable_setting(ItemSetting::Transferable);
                }
                proof {
                    assert(config == cfg.spec_disable(ItemSetting::Transferable));
                }
                kv2_set(&mut self.item_configs, (collection, item), config);
                Ok(NftEvent::ItemTransferLocked { collection, item })
            },
        }
    }

    /// Unlocks an item's transferability. Requires the Freezer role.
    pub fn do_unlock_item_transfer(&mut self, origin: u64, collection: u64, item: u64) -> (r:
        Result<NftEvent, NftError>)
        requires
            old(self).wf(),
        ensures
            final(self).wf(),
            final(self).collections == old(self).collections,
            final(self).collection_configs == old(self).collection_configs,
            final(self).roles == old(self).roles,
            final(self).features == old(self).features,
            (!spec_has_role(old(self).roles@, collection, origin, CollectionRole::Freezer) ==> r
                == Err::<NftEvent, _>(NftError::NoPermission) && final(self).item_configs == old(self).item_configs),
            (spec_has_role(old(self).roles@, collection, origin, CollectionRole::Freezer) ==> (
            match kv2_lookup(old(self).item_configs@, (collection, item)) {
                None => r == Err::<NftEvent, _>(NftError::UnknownItem) && final(self).item_configs
                    == old(self).item_configs,
                Some(cfg) => r == Ok::<_, NftError>(NftEvent::ItemTransferUnlocked {
                    collection,
                    item,
                }) && final(self).item_configs@ == kv2_inject(
                    old(self).item_configs@,
                    (collection, item),
                    cfg.spec_enable(ItemSetting::Transferable),
                ),
            })),
    {
        if !self.has_role(collection, origin, CollectionRole::Freezer) {
            return Err(NftError::NoPermission);
        }
        let maybe_config = self.get_item_config(collection, item);
        match maybe_config {
            Err(e) => Err(e),
            Ok(cfg) => {
                let mut config = cfg;
                if config.has_disabled_setting(ItemSetting::Transferable) {
                    config.enable_setting(ItemSetting::Transferable);
                }
                proof {
                    assert(config == cfg.spec_enable(ItemSetting::Transferable));
                }
                kv2_set(&mut self.item_configs, (collection, item), config);
                Ok(NftEvent::ItemTransferUnlocked { collection, item })
            },
        }
    }

    /// Locks an item's metadata and/or attributes. When a checking owner
    /// is given, it must be the collection's owner.
    pub fn do_lock_item_properties(
        &mut self,
        maybe_check_owner: Option<u64>,
        collection: u64,
        item: u64,
        lock_metadata: bool,
        lock_attributes: bool,
    ) -> (r: Result<NftEvent, NftError>)
        requires
            old(self).wf(),
        ensures
            final(self).wf(),
            final(self).collections == old(self).collections,
            final(self).collection_configs == old(self).collection_configs,
            final(self).roles == old(self).roles,
            final(self).features == old(self).features,
            (kv_lookup(old(self).collections@, collection) is None ==> r == Err::<NftEvent, _>(
                NftError::UnknownCollection,
            ) && final(self).item_configs == old(self).item_configs),
            (match kv_lookup(old(self).collections@, collection) {
                None => true,
                Some(details) => {
                    &&& ((maybe_check_owner matches Some(a) && a != details.owner) ==> r == Err::<
                        NftEvent,
                        _,
                    >(NftError::NoPermission) && final(self).item_configs == old(self).item_configs)
                    &&& ((maybe_check_owner is None || maybe_check_owner == Some(details.owner))
                        ==> (match kv2_lookup(old(self).item_configs@, (collection, item)) {
                        None => r == Err::<NftEvent, _>(NftError::UnknownItem) && final(self).item_configs == old(self).item_configs,
                        Some(cfg) => r == Ok::<_, NftError>(NftEvent::ItemPropertiesLocked {
                            collection,
                            item,
                            lock_metadata,
                            lock_attributes,
                        }) && final(self).item_configs@ == kv2_inject(
                            old(self).item_configs@,
                            (collection, item),
                            ItemConfig {
                                transferable_disabled: cfg.transferable_disabled,
                                unlocked_metadata_disabled: cfg.unlocked_metadata_disabled
                                    || lock_metadata,
                                unlocked_attributes_disabled: cfg.unlocked_attributes_disabled
                                    || lock_attributes,
                            },
                        ),
                    }))
                },
            }),
    {
        let maybe_details = kv_get(&self.collections, collection);
        match maybe_details {
            None => Err(NftError::UnknownCollection),
            Some(details) => {
                match maybe_check_owner {
                    Some(check_owner) if check_owner != details.owner => {
                        return Err(NftError::NoPermission);
                    },
                    _ => {},
                }
                let maybe_config = self.get_item_config(collection, item);
                match maybe_config {
                    Err(e) => Err(e),
                    Ok(cfg) => {
                        let mut config = cfg;
                        if lock_metadata {
                            config.disable_setting(ItemSetting::UnlockedMetadata);
                        }
                        if lock_attributes {
                            config.disable_setting(ItemSetting::UnlockedAttributes);
                        }
                        kv2_set(&mut self.item_configs, (collection, item), config);
                        Ok(NftEvent::ItemPropertiesLocked {
                            collection,
                            item,
                            lock_metadata,
                            lock_attributes,
                        })
                    },
                }
            },
        }
    }
}

} // verus!
