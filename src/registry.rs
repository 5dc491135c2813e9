//! Registries: owner-scoped collections of devices.
use vstd::prelude::*;

use crate::device::{Device, DeviceModel};
use crate::named_map::{NamedMap, Named};
use crate::storage_key::{derived_partition, registry_partition_material, StorageKeyModel, StorageKeys};

verus! {

/// The abstract value of a [`Registry`].
pub struct RegistryModel {
    pub name: Seq<char>,
    pub owner: Seq<char>,
    pub devices_partition: StorageKeyModel,
    pub devices: Map<Seq<char>, DeviceModel>,
}

impl RegistryModel {
    /// This registry with its devices replaced by `devices`.
    pub open spec fn with_devices(self, devices: Map<Seq<char>, DeviceModel>) -> RegistryModel {
        RegistryModel { devices, ..self }
    }
}

/// A registry just created as `name` by `owner`: no devices, kept in the
/// partition derived from its name.
pub open spec fn new_registry_model(name: Seq<char>, owner: Seq<char>) -> RegistryModel {
    RegistryModel {
        name,
        owner,
        devices_partition: derived_partition(registry_partition_material(name)),
        devices: Map::empty(),
    }
}

/// The registry that [`Registry::default`] gives.
pub open spec fn default_registry_model() -> RegistryModel {
    RegistryModel {
        name: Seq::empty(),
        owner: Seq::empty(),
        devices_partition: StorageKeyModel::Registry,
        devices: Map::empty(),
    }
}

/// A named collection of devices that belongs to one account.
pub struct Registry {
    pub name: String,
    pub devices: NamedMap<Device>,
    pub owner_id: String,
}

impl View for Registry {
    type V = RegistryModel;

    open spec fn view(&self) -> RegistryModel {
        RegistryModel {
            name: self.name@,
            owner: self.owner_id@,
            devices_partition: self.devices.partition_model(),
            devices: self.devices@,
        }
    }
}

impl Named for Registry {
    open spec fn spec_name(&self) -> Seq<char> {
        self.name@
    }

    fn name_ref(&self) -> (r: &String) {
        &self.name
    }
}

impl Default for Registry {
    fn default() -> (r: Registry)
        ensures
            r@ == default_registry_model(),
    {
        Registry {
            name: String::new(),
            devices: NamedMap::new(StorageKeys::Registry),
            owner_id: String::new(),
        }
    }
}

impl Registry {
    /// An empty registry named `name` that belongs to `owner_id`.
    pub fn new(name: String, owner_id: String) -> (r: Registry)
        ensures
            r@ == new_registry_model(name@, owner_id@),
    {
        let devices = NamedMap::new(StorageKeys::for_registry(&name));
        Registry { owner_id, devices, name }
    }

    /// Files `device` under its name, replacing a device of the same name.
    /// This is also how a changed device is saved back.
    pub fn add_device(&mut self, device: Device)
        ensures
            final(self)@ == old(self)@.with_devices(old(self)@.devices.insert(device@.name, device@)),
    {
        self.devices.insert(device);
    }

    /// A copy of the device named `device_name`, which must be held.
    pub fn get_device(&self, device_name: String) -> (r: Device)
        requires
            self@.devices.contains_key(device_name@),
        ensures
            r@ == self@.devices[device_name@],
            r@.name == device_name@,
    {
        match self.devices.get(&device_name) {
            Some(d) => d.duplicate(),
            None => Device::default(),
        }
    }

    /// Whether a device named `device_name` is held.
    pub fn device_exists(&self, device_name: String) -> (r: bool)
        ensures
            r == self@.devices.contains_key(device_name@),
    {
        self.devices.contains_key(&device_name)
    }

    /// Removes the device named `device_name`, with its maps; tells whether
    /// there was one.
    pub fn remove_device(&mut self, device_name: String) -> (r: bool)
        ensures
            r == old(self)@.devices.contains_key(device_name@),
            final(self)@ == old(self)@.with_devices(old(self)@.devices.remove(device_name@)),
    {
        match self.devices.remove(&device_name) {
            Some(_) => true,
            None => {
                assert(old(self)@.devices.remove(device_name@) =~= old(self)@.devices);
                false
            },
        }
    }
}

} // verus!
