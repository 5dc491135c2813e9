//! A multi-tenant registry of device records.
//!
//! A [`Contract`] holds registries by name. Each [`Registry`] belongs to the
//! account that created it and holds devices by name. Each [`Device`] carries
//! two independent string-to-string maps, `metadata` and `data`, each living in
//! a storage partition whose key is derived from the registry and device names.
//! Only a registry's owner may change it; anyone may read it.

pub mod assoc;
pub mod storage_key;
pub mod field_map;
pub mod named_map;
pub mod device;
pub mod registry;
pub mod payload;
pub mod contract;
pub mod laws;

pub use contract::Contract;
pub use device::Device;
pub use field_map::FieldMap;
pub use named_map::NamedMap;
pub use registry::Registry;
pub use storage_key::StorageKeys;
