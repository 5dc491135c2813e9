//! Devices: named records with two independent field maps.
use vstd::prelude::*;

use crate::assoc::unique_keys;
use crate::field_map::{pairs_map, view_pairs, FieldMap};
use crate::named_map::Named;
use crate::storage_key::{
    data_partition_material, derived_partition, metadata_partition_material, StorageKeyModel, StorageKeys,
};

verus! {

/// The abstract value of a [`Device`].
pub struct DeviceModel {
    pub name: Seq<char>,
    pub description: Seq<char>,
    pub metadata_partition: StorageKeyModel,
    pub data_partition: StorageKeyModel,
    pub metadata: Map<Seq<char>, Seq<char>>,
    pub data: Map<Seq<char>, Seq<char>>,
}

impl DeviceModel {
    /// This device with its metadata replaced by `metadata`.
    pub open spec fn with_metadata(self, metadata: Map<Seq<char>, Seq<char>>) -> DeviceModel {
        DeviceModel { metadata, ..self }
    }

    /// This device with its data replaced by `data`.
    pub open spec fn with_data(self, data: Map<Seq<char>, Seq<char>>) -> DeviceModel {
        DeviceModel { data, ..self }
    }
}

/// A device just created as `name` in registry `registry_name`: both maps
/// empty, each in the partition derived from the two names.
pub open spec fn new_device_model(
    registry_name: Seq<char>,
    name: Seq<char>,
    description: Seq<char>,
) -> DeviceModel {
    DeviceModel {
        name,
        description,
        metadata_partition: derived_partition(metadata_partition_material(registry_name, name)),
        data_partition: derived_partition(data_partition_material(registry_name, name)),
        metadata: Map::empty(),
        data: Map::empty(),
    }
}

/// The device that [`Device::default`] gives.
pub open spec fn default_device_model() -> DeviceModel {
    DeviceModel {
        name: Seq::empty(),
        description: Seq::empty(),
        metadata_partition: StorageKeyModel::DeviceMetadata,
        data_partition: StorageKeyModel::DeviceData,
        metadata: Map::empty(),
        data: Map::empty(),
    }
}

/// A named record with a description and two field maps.
pub struct Device {
    pub metadata: FieldMap,
    pub data: FieldMap,
    pub description: String,
    pub name: String,
}

impl View for Device {
    type V = DeviceModel;

    open spec fn view(&self) -> DeviceModel {
        DeviceModel {
            name: self.name@,
            description: self.description@,
            metadata_partition: self.metadata.partition_model(),
            data_partition: self.data.partition_model(),
            metadata: self.metadata@,
            data: self.data@,
        }
    }
}

impl Named for Device {
    open spec fn spec_name(&self) -> Seq<char> {
        self.name@
    }

    fn name_ref(&self) -> (r: &String) {
        &self.name
    }
}

impl Default for Device {
    fn default() -> (r: Device)
        ensures
            r@ == default_device_model(),
    {
        Device {
            metadata: FieldMap::new(StorageKeys::DeviceMetadata),
            data: FieldMap::new(StorageKeys::DeviceData),
            description: String::new(),
            name: String::new(),
        }
    }
}

impl Device {
    /// A device named `name` in registry `registry_name`, with empty maps
    /// stored in partitions derived from the two names.
    pub fn new(registry_name: String, name: String, description: String) -> (r: Device)
        ensures
            r@ == new_device_model(registry_name@, name@, description@),
    {
        let metadata = FieldMap::new(StorageKeys::for_metadata(&registry_name, &name));
        let data = FieldMap::new(StorageKeys::for_data(&registry_name, &name));
        Device { description, metadata, data, name }
    }

    /// Merges `metadata` into the metadata map.
    pub fn set_metadata(&mut self, metadata: Vec<(String, String)>)
        ensures
            final(self)@ == old(self)@.with_metadata(
                old(self)@.metadata.union_prefer_right(pairs_map(metadata@)),
            ),
    {
        self.metadata.set_all(metadata);
    }

    /// Every metadata pair, each key once.
    pub fn get_metadata(&self) -> (r: Vec<(String, String)>)
        ensures
            unique_keys(view_pairs(r@)),
            pairs_map(r@) == self@.metadata,
    {
        self.metadata.to_vec()
    }

    /// Merges `data` into the data map.
    pub fn set_data(&mut self, data: Vec<(String, String)>)
        ensures
            final(self)@ == old(self)@.with_data(old(self)@.data.union_prefer_right(pairs_map(data@))),
    {
        self.data.set_all(data);
    }

    /// Every data pair, each key once.
    pub fn get_data(&self) -> (r: Vec<(String, String)>)
        ensures
            unique_keys(view_pairs(r@)),
            pairs_map(r@) == self@.data,
    {
        self.data.to_vec()
    }

    /// The metadata value under `param`, which must be held.
    pub fn get_metadata_param(&self, param: String) -> (r: String)
        requires
            self@.metadata.contains_key(param@),
        ensures
            r@ == self@.metadata[param@],
    {
        match self.metadata.get(&param) {
            Some(v) => v,
            None => String::new(),
        }
    }

    /// Sets the metadata value under `param`.
    pub fn set_metadata_param(&mut self, param: String, value: String)
        ensures
            final(self)@ == old(self)@.with_metadata(old(self)@.metadata.insert(param@, value@)),
    {
        self.metadata.insert(param, value);
    }

    /// The data value under `param`, which must be held.
    pub fn get_data_param(&self, param: String) -> (r: String)
        requires
            self@.data.contains_key(param@),
        ensures
            r@ == self@.data[param@],
    {
        match self.data.get(&param) {
            Some(v) => v,
            None => String::new(),
        }
    }

    /// Sets the data value under `param`.
    pub fn set_data_param(&mut self, param: String, value: String)
        ensures
            final(self)@ == old(self)@.with_data(old(self)@.data.insert(param@, value@)),
    {
        self.data.insert(param, value);
    }

    /// A copy of this device, with copies of its maps under the same
    /// partitions.
    pub fn duplicate(&self) -> (r: Device)
        ensures
            r@ == self@,
    {
        Device {
            metadata: self.metadata.duplicate(),
            data: self.data.duplicate(),
            description: self.description.clone(),
            name: self.name.clone(),
        }
    }
}

} // verus!
