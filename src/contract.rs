//! The store: every registry by name, and the operations that callers invoke.
//!
//! Each mutating operation first checks that its registry (and device) exist
//! and that the caller owns the registry; only then does it load the
//! aggregate, change it and save it back. Reads check existence only.
use vstd::prelude::*;

use crate::assoc::unique_keys;
use crate::device::{new_device_model, Device, DeviceModel};
use crate::field_map::{pairs_map, view_pairs};
use crate::named_map::NamedMap;
use crate::payload::{json_string_pairs, parse_string_object, payload_map};
use crate::registry::{new_registry_model, Registry, RegistryModel};
use crate::storage_key::{StorageKeyModel, StorageKeys};

verus! {

/// The abstract value of a [`Contract`]: registries by name.
pub type StoreModel = Map<Seq<char>, RegistryModel>;

/// The reply of a single-value read whose registry does not exist.
pub open spec fn missing_registry_reply() -> Seq<char> {
    "Not registry or not allowed"@
}

/// The reply of a single-value read whose device does not exist.
pub open spec fn missing_device_reply() -> Seq<char> {
    "Not device"@
}

/// Registry `reg` exists and belongs to `caller`.
pub open spec fn may_modify(s: StoreModel, caller: Seq<char>, reg: Seq<char>) -> bool {
    s.contains_key(reg) && s[reg].owner == caller
}

/// Registry `reg` exists and holds device `dev`.
pub open spec fn has_device(s: StoreModel, reg: Seq<char>, dev: Seq<char>) -> bool {
    s.contains_key(reg) && s[reg].devices.contains_key(dev)
}

/// The store with device `dev` of registry `reg` set to `d`.
pub open spec fn with_device(
    s: StoreModel,
    reg: Seq<char>,
    dev: Seq<char>,
    d: DeviceModel,
) -> StoreModel {
    s.insert(reg, s[reg].with_devices(s[reg].devices.insert(dev, d)))
}

/// Creating registry `name` as `caller`: the new store and the reply.
pub open spec fn create_registry_step(s: StoreModel, caller: Seq<char>, name: Seq<char>) -> (
    StoreModel,
    bool,
) {
    if s.contains_key(name) {
        (s, false)
    } else {
        (s.insert(name, new_registry_model(name, caller)), true)
    }
}

/// Deleting registry `name`, with its devices, as `caller`.
pub open spec fn delete_registry_step(s: StoreModel, caller: Seq<char>, name: Seq<char>) -> (
    StoreModel,
    bool,
) {
    if may_modify(s, caller, name) {
        (s.remove(name), true)
    } else {
        (s, false)
    }
}

/// Adding device `dev` with description `desc` to registry `reg` as `caller`.
pub open spec fn add_device_step(
    s: StoreModel,
    caller: Seq<char>,
    reg: Seq<char>,
    dev: Seq<char>,
    desc: Seq<char>,
) -> (StoreModel, bool) {
    if may_modify(s, caller, reg) && !s[reg].devices.contains_key(dev) {
        (with_device(s, reg, dev, new_device_model(reg, dev, desc)), true)
    } else {
        (s, false)
    }
}

/// Deleting device `dev`, with its maps, from registry `reg` as `caller`.
pub open spec fn delete_device_step(
    s: StoreModel,
    caller: Seq<char>,
    reg: Seq<char>,
    dev: Seq<char>,
) -> (StoreModel, bool) {
    if may_modify(s, caller, reg) && has_device(s, reg, dev) {
        (s.insert(reg, s[reg].with_devices(s[reg].devices.remove(dev))), true)
    } else {
        (s, false)
    }
}

/// Merging `pairs` into the data of device `dev` of registry `reg` as `caller`.
pub open spec fn set_data_step(
    s: StoreModel,
    caller: Seq<char>,
    reg: Seq<char>,
    dev: Seq<char>,
    pairs: Map<Seq<char>, Seq<char>>,
) -> (StoreModel, bool) {
    if may_modify(s, caller, reg) && has_device(s, reg, dev) {
        let d = s[reg].devices[dev];
        (with_device(s, reg, dev, d.with_data(d.data.union_prefer_right(pairs))), true)
    } else {
        (s, false)
    }
}

/// Merging `pairs` into the metadata of device `dev` of registry `reg` as
/// `caller`.
pub open spec fn set_metadata_step(
    s: StoreModel,
    caller: Seq<char>,
    reg: Seq<char>,
    dev: Seq<char>,
    pairs: Map<Seq<char>, Seq<char>>,
) -> (StoreModel, bool) {
    if may_modify(s, caller, reg) && has_device(s, reg, dev) {
        let d = s[reg].devices[dev];
        (with_device(s, reg, dev, d.with_metadata(d.metadata.union_prefer_right(pairs))), true)
    } else {
        (s, false)
    }
}

/// Setting data value `key` of device `dev` of registry `reg` as `caller`.
pub open spec fn set_data_param_step(
    s: StoreModel,
    caller: Seq<char>,
    reg: Seq<char>,
    dev: Seq<char>,
    key: Seq<char>,
    value: Seq<char>,
) -> (StoreModel, bool) {
    if may_modify(s, caller, reg) && has_device(s, reg, dev) {
        let d = s[reg].devices[dev];
        (with_device(s, reg, dev, d.with_data(d.data.insert(key, value))), true)
    } else {
        (s, false)
    }
}

/// Setting metadata value `key` of device `dev` of registry `reg` as `caller`.
pub open spec fn set_metadata_param_step(
    s: StoreModel,
    caller: Seq<char>,
    reg: Seq<char>,
    dev: Seq<char>,
    key: Seq<char>,
    value: Seq<char>,
) -> (StoreModel, bool) {
    if may_modify(s, caller, reg) && has_device(s, reg, dev) {
        let d = s[reg].devices[dev];
        (with_device(s, reg, dev, d.with_metadata(d.metadata.insert(key, value))), true)
    } else {
        (s, false)
    }
}

/// The reply to reading data value `key` of device `dev` of registry `reg`.
pub open spec fn data_param_reply(
    s: StoreModel,
    reg: Seq<char>,
    dev: Seq<char>,
    key: Seq<char>,
) -> Seq<char> {
    if !s.contains_key(reg) {
        missing_registry_reply()
    } else if !s[reg].devices.contains_key(dev) {
        missing_device_reply()
    } else {
        s[reg].devices[dev].data[key]
    }
}

/// The reply to reading metadata value `key` of device `dev` of registry
/// `reg`.
pub open spec fn metadata_param_reply(
    s: StoreModel,
    reg: Seq<char>,
    dev: Seq<char>,
    key: Seq<char>,
) -> Seq<char> {
    if !s.contains_key(reg) {
        missing_registry_reply()
    } else if !s[reg].devices.contains_key(dev) {
        missing_device_reply()
    } else {
        s[reg].devices[dev].metadata[key]
    }
}

/// The store of all registries.
pub struct Contract {
    pub registries: NamedMap<Registry>,
}

impl View for Contract {
    type V = StoreModel;

    open spec fn view(&self) -> StoreModel {
        self.registries@
    }
}

impl Default for Contract {
    fn default() -> (r: Contract)
        ensures
            r@ == StoreModel::empty(),
            r.registries.partition_model() == StorageKeyModel::Registries,
    {
        Contract { registries: NamedMap::new(StorageKeys::Registries) }
    }
}

impl Contract {
    /// An empty store.
    pub fn new() -> (r: Contract)
        ensures
            r@ == StoreModel::empty(),
            r.registries.partition_model() == StorageKeyModel::Registries,
    {
        Contract::default()
    }

    /// Creates registry `registry_name` owned by `signer_id`; false where the
    /// name is taken.
    pub fn create_registry(&mut self, signer_id: String, registry_name: String) -> (r: bool)
        ensures
            (final(self)@, r) == create_registry_step(old(self)@, signer_id@, registry_name@),
    {
        if self.validate_exists_registry(&registry_name) {
            return false;
        }
        let new_registry = Registry::new(registry_name, signer_id);
        self.registries.insert(new_registry);
        true
    }

    /// Deletes registry `registry_name` with all its devices; false unless it
    /// exists and belongs to `signer_id`.
    pub fn delete_registry(&mut self, signer_id: String, registry_name: String) -> (r: bool)
        ensures
            (final(self)@, r) == delete_registry_step(old(self)@, signer_id@, registry_name@),
    {
        if !self.validate_registry(&signer_id, &registry_name) {
            return false;
        }
        self.registries.remove(&registry_name);
        true
    }

    /// Adds a device named `device_name` to registry `registry_name`; false
    /// unless the registry exists, belongs to `signer_id` and has no device of
    /// that name.
    pub fn add_device_to_registry(
        &mut self,
        signer_id: String,
        registry_name: String,
        device_name: String,
        description: String,
    ) -> (r: bool)
        ensures
            (final(self)@, r) == add_device_step(
                old(self)@,
                signer_id@,
                registry_name@,
                device_name@,
                description@,
            ),
    {
        if !self.validate_registry(&signer_id, &registry_name) {
            return false;
        }
        if self.validate_exists_device(&registry_name, &device_name) {
            return false;
        }
        let mut current_registry = self.load_registry(&registry_name);
        let new_device = Device::new(registry_name, device_name, description);
        current_registry.add_device(new_device);
        self.save_registry(current_registry);
        true
    }

    /// Deletes device `device_name`, with its maps, from registry
    /// `registry_name`; false unless the registry belongs to `signer_id` and
    /// holds the device.
    pub fn delete_device_from_registry(
        &mut self,
        signer_id: String,
        registry_name: String,
        device_name: String,
    ) -> (r: bool)
        ensures
            (final(self)@, r) == delete_device_step(
                old(self)@,
                signer_id@,
                registry_name@,
                device_name@,
            ),
    {
        if !self.validate_registry(&signer_id, &registry_name) {
            return false;
        }
        if !self.validate_exists_device(&registry_name, &device_name) {
            return false;
        }
        let mut current_registry = self.load_registry(&registry_name);
        current_registry.remove_device(device_name);
        self.save_registry(current_registry);
        true
    }

    /// Every data pair of device `device_name` of registry `registry_name`,
    /// each key once; empty where either does not exist.
    pub fn get_device_data(&self, registry_name: String, device_name: String) -> (r: Vec<
        (String, String),
    >)
        ensures
            has_device(self@, registry_name@, device_name@) ==> unique_keys(view_pairs(r@))
                && pairs_map(r@) == self@[registry_name@].devices[device_name@].data,
            !has_device(self@, registry_name@, device_name@) ==> r@.len() == 0,
    {
        match self.registries.get(&registry_name) {
            None => Vec::new(),
            Some(current_registry) => match current_registry.devices.get(&device_name) {
                None => Vec::new(),
                Some(current_device) => current_device.get_data(),
            },
        }
    }

    /// Every metadata pair of device `device_name` of registry
    /// `registry_name`, each key once; empty where either does not exist.
    pub fn get_device_metadata(&self, registry_name: String, device_name: String) -> (r: Vec<
        (String, String),
    >)
        ensures
            has_device(self@, registry_name@, device_name@) ==> unique_keys(view_pairs(r@))
                && pairs_map(r@) == self@[registry_name@].devices[device_name@].metadata,
            !has_device(self@, registry_name@, device_name@) ==> r@.len() == 0,
    {
        match self.registries.get(&registry_name) {
            None => Vec::new(),
            Some(current_registry) => match current_registry.devices.get(&device_name) {
                None => Vec::new(),
                Some(current_device) => current_device.get_metadata(),
            },
        }
    }

    /// Data value `param` of device `device_name` of registry
    /// `registry_name`, or the reply that says which of the two is missing.
    /// Where both exist the value must be held.
    pub fn get_device_data_param(
        &self,
        registry_name: String,
        device_name: String,
        param: String,
    ) -> (r: String)
        requires
            has_device(self@, registry_name@, device_name@) ==> self@[registry_name@].devices[device_name@].data.contains_key(
                param@,
            ),
        ensures
            r@ == data_param_reply(self@, registry_name@, device_name@, param@),
    {
        match self.registries.get(&registry_name) {
            None => "Not registry or not allowed".to_owned(),
            Some(current_registry) => match current_registry.devices.get(&device_name) {
                None => "Not device".to_owned(),
                Some(current_device) => current_device.get_data_param(param),
            },
        }
    }

    /// Metadata value `param` of device `device_name` of registry
    /// `registry_name`, or the reply that says which of the two is missing.
    /// Where both exist the value must be held.
    pub fn get_device_metadata_param(
        &self,
        registry_name: String,
        device_name: String,
        param: String,
    ) -> (r: String)
        requires
            has_device(self@, registry_name@, device_name@) ==> self@[registry_name@].devices[device_name@].metadata.contains_key(
                param@,
            ),
        ensures
            r@ == metadata_param_reply(self@, registry_name@, device_name@, param@),
    {
        match self.registries.get(&registry_name) {
            None => "Not registry or not allowed".to_owned(),
            Some(current_registry) => match current_registry.devices.get(&device_name) {
                None => "Not device".to_owned(),
                Some(current_device) => current_device.get_metadata_param(param),
            },
        }
    }

    /// Merges the JSON object `data` into the data of device `device_name` of
    /// registry `registry_name`; false unless the registry belongs to
    /// `signer_id` and holds the device. Where it does, `data` must be a JSON
    /// object of strings.
    pub fn set_device_data(
        &mut self,
        signer_id: String,
        registry_name: String,
        device_name: String,
        data: String,
    ) -> (r: bool)
        requires
            may_modify(old(self)@, signer_id@, registry_name@) && has_device(
                old(self)@,
                registry_name@,
                device_name@,
            ) ==> json_string_pairs(data@) is Some,
        ensures
            (final(self)@, r) == set_data_step(
                old(self)@,
                signer_id@,
                registry_name@,
                device_name@,
                payload_map(data@),
            ),
    {
        if !self.validate_registry(&signer_id, &registry_name) {
            return false;
        }
        if !self.validate_exists_device(&registry_name, &device_name) {
            return false;
        }
        match parse_string_object(data.as_str()) {
            Some(pairs) => self.merge_device_data(signer_id, registry_name, device_name, pairs),
            None => false,
        }
    }

    /// Merges `pairs` into the data of device `device_name` of registry
    /// `registry_name`, later pairs winning; false unless the registry belongs
    /// to `signer_id` and holds the device.
    pub fn merge_device_data(
        &mut self,
        signer_id: String,
        registry_name: String,
        device_name: String,
        pairs: Vec<(String, String)>,
    ) -> (r: bool)
        ensures
            (final(self)@, r) == set_data_step(
                old(self)@,
                signer_id@,
                registry_name@,
                device_name@,
                pairs_map(pairs@),
            ),
    {
        if !self.validate_registry(&signer_id, &registry_name) {
            return false;
        }
        if !self.validate_exists_device(&registry_name, &device_name) {
            return false;
        }
        let mut current_registry = self.load_registry(&registry_name);
        let mut current_device = current_registry.get_device(device_name);
        current_device.set_data(pairs);
        let ghost d = current_device@;
        current_registry.add_device(current_device);
        self.save_registry(current_registry);
        assert(self@ =~= with_device(old(self)@, registry_name@, device_name@, d));
        true
    }

    /// Merges the JSON object `metadata` into the metadata of device
    /// `device_name` of registry `registry_name`; false unless the registry
    /// belongs to `signer_id` and holds the device. Where it does, `metadata`
    /// must be a JSON object of strings.
    pub fn set_device_metadata(
        &mut self,
        signer_id: String,
        registry_name: String,
        device_name: String,
        metadata: String,
    ) -> (r: bool)
        requires
            may_modify(old(self)@, signer_id@, registry_name@) && has_device(
                old(self)@,
                registry_name@,
                device_name@,
            ) ==> json_string_pairs(metadata@) is Some,
        ensures
            (final(self)@, r) == set_metadata_step(
                old(self)@,
                signer_id@,
                registry_name@,
                device_name@,
                payload_map(metadata@),
            ),
    {
        if !self.validate_registry(&signer_id, &registry_name) {
            return false;
        }
        if !self.validate_exists_device(&registry_name, &device_name) {
            return false;
        }
        match parse_string_object(metadata.as_str()) {
            Some(pairs) => self.merge_device_metadata(signer_id, registry_name, device_name, pairs),
            None => false,
        }
    }

    /// Merges `pairs` into the metadata of device `device_name` of registry
    /// `registry_name`, later pairs winning; false unless the registry belongs
    /// to `signer_id` and holds the device.
    pub fn merge_device_metadata(
        &mut self,
        signer_id: String,
        registry_name: String,
        device_name: String,
        pairs: Vec<(String, String)>,
    ) -> (r: bool)
        ensures
            (final(self)@, r) == set_metadata_step(
                old(self)@,
                signer_id@,
                registry_name@,
                device_name@,
                pairs_map(pairs@),
            ),
    {
        if !self.validate_registry(&signer_id, &registry_name) {
            return false;
        }
        if !self.validate_exists_device(&registry_name, &device_name) {
            return false;
        }
        let mut current_registry = self.load_registry(&registry_name);
        let mut current_device = current_registry.get_device(device_name);
        current_device.set_metadata(pairs);
        let ghost d = current_device@;
        current_registry.add_device(current_device);
        self.save_registry(current_registry);
        assert(self@ =~= with_device(old(self)@, registry_name@, device_name@, d));
        true
    }

    /// Like [`Contract::set_device_data`], but for every payload: `None`, with
    /// the store unchanged, where the registry belongs to `signer_id` and
    /// holds the device but `data` is no JSON object of strings.
    pub fn try_set_device_data(
        &mut self,
        signer_id: String,
        registry_name: String,
        device_name: String,
        data: String,
    ) -> (r: Option<bool>)
        ensures
            may_modify(old(self)@, signer_id@, registry_name@) && has_device(
                old(self)@,
                registry_name@,
                device_name@,
            ) && json_string_pairs(data@) is None ==> r is None && final(self)@ == old(self)@,
            !(may_modify(old(self)@, signer_id@, registry_name@) && has_device(
                old(self)@,
                registry_name@,
                device_name@,
            ) && json_string_pairs(data@) is None) ==> r == Some(
                set_data_step(
                    old(self)@,
                    signer_id@,
                    registry_name@,
                    device_name@,
                    payload_map(data@),
                ).1,
            ) && final(self)@ == set_data_step(
                old(self)@,
                signer_id@,
                registry_name@,
                device_name@,
                payload_map(data@),
            ).0,
    {
        if self.validate_registry(&signer_id, &registry_name) && self.validate_exists_device(
            &registry_name,
            &device_name,
        ) {
            return match parse_string_object(data.as_str()) {
                Some(pairs) => Some(
                    self.merge_device_data(signer_id, registry_name, device_name, pairs),
                ),
                None => None,
            };
        }
        Some(self.set_device_data(signer_id, registry_name, device_name, data))
    }

    /// Like [`Contract::set_device_metadata`], but for every payload: `None`,
    /// with the store unchanged, where the registry belongs to `signer_id` and
    /// holds the device but `metadata` is no JSON object of strings.
    pub fn try_set_device_metadata(
        &mut self,
        signer_id: String,
        registry_name: String,
        device_name: String,
        metadata: String,
    ) -> (r: Option<bool>)
        ensures
            may_modify(old(self)@, signer_id@, registry_name@) && has_device(
                old(self)@,
                registry_name@,
                device_name@,
            ) && json_string_pairs(metadata@) is None ==> r is None && final(self)@ == old(
                self,
            )@,
            !(may_modify(old(self)@, signer_id@, registry_name@) && has_device(
                old(self)@,
                registry_name@,
                device_name@,
            ) && json_string_pairs(metadata@) is None) ==> r == Some(
                set_metadata_step(
                    old(self)@,
                    signer_id@,
                    registry_name@,
                    device_name@,
                    payload_map(metadata@),
                ).1,
            ) && final(self)@ == set_metadata_step(
                old(self)@,
                signer_id@,
                registry_name@,
                device_name@,
                payload_map(metadata@),
            ).0,
    {
        if self.validate_registry(&signer_id, &registry_name) && self.validate_exists_device(
            &registry_name,
            &device_name,
        ) {
            return match parse_string_object(metadata.as_str()) {
                Some(pairs) => Some(
                    self.merge_device_metadata(signer_id, registry_name, device_name, pairs),
                ),
                None => None,
            };
        }
        Some(self.set_device_metadata(signer_id, registry_name, device_name, metadata))
    }

    /// Sets data value `param` of device `device_name` of registry
    /// `registry_name` to `value`; false unless the registry belongs to
    /// `signer_id` and holds the device.
    pub fn set_device_data_param(
        &mut self,
        signer_id: String,
        registry_name: String,
        device_name: String,
        param: String,
        value: String,
    ) -> (r: bool)
        ensures
            (final(self)@, r) == set_data_param_step(
                old(self)@,
                signer_id@,
                registry_name@,
                device_name@,
                param@,
                value@,
            ),
    {
        if !self.validate_registry(&signer_id, &registry_name) {
            return false;
        }
        if !self.validate_exists_device(&registry_name, &device_name) {
            return false;
        }
        let mut current_registry = self.load_registry(&registry_name);
        let mut current_device = current_registry.get_device(device_name);
        current_device.set_data_param(param, value);
        let ghost d = current_device@;
        current_registry.add_device(current_device);
        self.save_registry(current_registry);
        assert(self@ =~= with_device(old(self)@, registry_name@, device_name@, d));
        true
    }

    /// Sets metadata value `param` of device `device_name` of registry
    /// `registry_name` to `value`; false unless the registry belongs to
    /// `signer_id` and holds the device.
    pub fn set_device_metadata_param(
        &mut self,
        signer_id: String,
        registry_name: String,
        device_name: String,
        param: String,
        value: String,
    ) -> (r: bool)
        ensures
            (final(self)@, r) == set_metadata_param_step(
                old(self)@,
                signer_id@,
                registry_name@,
                device_name@,
                param@,
                value@,
            ),
    {
        if !self.validate_registry(&signer_id, &registry_name) {
            return false;
        }
        if !self.validate_exists_device(&registry_name, &device_name) {
            return false;
        }
        let mut current_registry = self.load_registry(&registry_name);
        let mut current_device = current_registry.get_device(device_name);
        current_device.set_metadata_param(param, value);
        let ghost d = current_device@;
        current_registry.add_device(current_device);
        self.save_registry(current_registry);
        assert(self@ =~= with_device(old(self)@, registry_name@, device_name@, d));
        true
    }

    /// Takes registry `registry_name` out of the store, to be changed and
    /// saved back.
    fn load_registry(&mut self, registry_name: &String) -> (r: Registry)
        requires
            old(self)@.contains_key(registry_name@),
        ensures
            r@ == old(self)@[registry_name@],
            r.name@ == registry_name@,
            final(self)@ == old(self)@.remove(registry_name@),
    {
        match self.registries.remove(registry_name) {
            Some(registry) => registry,
            None => Registry::default(),
        }
    }

    /// Files `registry` back under its name.
    fn save_registry(&mut self, registry: Registry)
        ensures
            final(self)@ == old(self)@.insert(registry.name@, registry@),
    {
        self.registries.insert(registry);
    }

    /// Whether registry `registry_name` belongs to `signer_id`; it must exist.
    fn validate_owner(&self, signer_id: &String, registry_name: &String) -> (r: bool)
        requires
            self@.contains_key(registry_name@),
        ensures
            r == (self@[registry_name@].owner == signer_id@),
    {
        match self.registries.get(registry_name) {
            Some(registry) => registry.owner_id == *signer_id,
            None => false,
        }
    }

    /// Whether registry `registry_name` exists.
    fn validate_exists_registry(&self, registry_name: &String) -> (r: bool)
        ensures
            r == self@.contains_key(registry_name@),
    {
        self.registries.contains_key(registry_name)
    }

    /// Whether registry `registry_name` exists and belongs to `signer_id`.
    fn validate_registry(&self, signer_id: &String, registry_name: &String) -> (r: bool)
        ensures
            r == may_modify(self@, signer_id@, registry_name@),
    {
        self.validate_exists_registry(registry_name) && self.validate_owner(
            signer_id,
            registry_name,
        )
    }

    /// Whether registry `registry_name` holds device `device_name`.
    fn validate_exists_device(&self, registry_name: &String, device_name: &String) -> (r: bool)
        ensures
            r == has_device(self@, registry_name@, device_name@),
    {
        match self.registries.get(registry_name) {
            Some(registry) => registry.devices.contains_key(device_name),
            None => false,
        }
    }
}

} // verus!
