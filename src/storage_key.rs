//! Storage partition keys and their derivation.
//!
//! Every collection of the store lives in a partition of the host's key-value
//! storage. A fixed partition is named by a variant of [`StorageKeys`]; a
//! partition of one registry or one device is named by the SHA-256 digest of
//! key material: a namespace tag followed by the names, laid out so that
//! different names always give different material.
use vstd::prelude::*;
use vstd::string::StringSliceAdditionalSpecFns;
use vstd::utf8::encode_utf8;

verus! {

/// The key of a storage partition.
pub enum StorageKeys {
    Device,
    Registry,
    Registries,
    DeviceData,
    DeviceMetadata,
    Custom { hash: Vec<u8> },
}

/// The abstract value of a [`StorageKeys`].
pub enum StorageKeyModel {
    Device,
    Registry,
    Registries,
    DeviceData,
    DeviceMetadata,
    Custom { hash: Seq<u8> },
}

impl View for StorageKeys {
    type V = StorageKeyModel;

    open spec fn view(&self) -> StorageKeyModel {
        match self {
            StorageKeys::Device => StorageKeyModel::Device,
            StorageKeys::Registry => StorageKeyModel::Registry,
            StorageKeys::Registries => StorageKeyModel::Registries,
            StorageKeys::DeviceData => StorageKeyModel::DeviceData,
            StorageKeys::DeviceMetadata => StorageKeyModel::DeviceMetadata,
            StorageKeys::Custom { hash } => StorageKeyModel::Custom { hash: hash@ },
        }
    }
}

/// The SHA-256 digest of a byte string.
pub uninterp spec fn sha256_digest(bytes: Seq<u8>) -> Seq<u8>;

/// Relies on `near_sdk::env::sha256`: the SHA-256 digest of the bytes given.
#[verifier::external_body]
fn sha256_of(bytes: &Vec<u8>) -> (r: Vec<u8>)
    ensures
        r@ == sha256_digest(bytes@),
{
    near_sdk::env::sha256(bytes)
}

/// The partition named by the digest of `material`.
pub open spec fn derived_partition(material: Seq<u8>) -> StorageKeyModel {
    StorageKeyModel::Custom { hash: sha256_digest(material) }
}

/// The namespace tag of a registry's device partition: `reg`.
pub open spec fn registry_tag() -> Seq<u8> {
    seq![0x72u8, 0x65u8, 0x67u8]
}

/// The namespace tag of a device's metadata partition: `met`.
pub open spec fn metadata_tag() -> Seq<u8> {
    seq![0x6du8, 0x65u8, 0x74u8]
}

/// The namespace tag of a device's data partition: `dat`.
pub open spec fn data_tag() -> Seq<u8> {
    seq![0x64u8, 0x61u8, 0x74u8]
}

/// The byte that ends the registry name in a device's key material. UTF-8
/// never uses it, so the registry name and the device name can always be
/// told apart.
pub open spec fn separator() -> u8 {
    0xffu8
}

/// The key material of the device partition of a registry: its tag, then the
/// UTF-8 bytes of its name.
pub open spec fn registry_partition_material(registry_name: Seq<char>) -> Seq<u8> {
    registry_tag() + encode_utf8(registry_name)
}

/// The key material of a device partition: the tag, the UTF-8 bytes of the
/// registry name, the separator, and the UTF-8 bytes of the device name.
pub open spec fn device_partition_material(
    tag: Seq<u8>,
    registry_name: Seq<char>,
    device_name: Seq<char>,
) -> Seq<u8> {
    tag + encode_utf8(registry_name) + seq![separator()] + encode_utf8(device_name)
}

/// The key material of the metadata partition of a device.
pub open spec fn metadata_partition_material(
    registry_name: Seq<char>,
    device_name: Seq<char>,
) -> Seq<u8> {
    device_partition_material(metadata_tag(), registry_name, device_name)
}

/// The key material of the data partition of a device.
pub open spec fn data_partition_material(registry_name: Seq<char>, device_name: Seq<char>) -> Seq<
    u8,
> {
    device_partition_material(data_tag(), registry_name, device_name)
}

/// Appends the UTF-8 bytes of `text` to `out`.
fn push_utf8(out: &mut Vec<u8>, text: &String)
    ensures
        final(out)@ == old(out)@ + encode_utf8(text@),
{
    let bytes = text.as_str().as_bytes();
    let mut i: usize = 0;
    while i < bytes.len()
        invariant
            i <= bytes@.len(),
            bytes@ == encode_utf8(text@),
            out@ == old(out)@ + bytes@.subrange(0, i as int),
        decreases bytes@.len() - i,
    {
        out.push(bytes[i]);
        i = i + 1;
        assert(out@ =~= old(out)@ + bytes@.subrange(0, i as int));
    }
    assert(bytes@.subrange(0, bytes@.len() as int) =~= bytes@);
}

/// The key material of a device partition under the three tag bytes given.
fn device_material(
    tag: (u8, u8, u8),
    registry_name: &String,
    device_name: &String,
) -> (r: Vec<u8>)
    ensures
        r@ == device_partition_material(seq![tag.0, tag.1, tag.2], registry_name@, device_name@),
{
    let mut material: Vec<u8> = Vec::new();
    material.push(tag.0);
    material.push(tag.1);
    material.push(tag.2);
    push_utf8(&mut material, registry_name);
    material.push(0xff);
    push_utf8(&mut material, device_name);
    assert(material@ =~= device_partition_material(
        seq![tag.0, tag.1, tag.2],
        registry_name@,
        device_name@,
    ));
    material
}

impl StorageKeys {
    /// The partition named by the SHA-256 digest of `material`.
    pub fn derive(material: &Vec<u8>) -> (r: StorageKeys)
        ensures
            r@ == derived_partition(material@),
    {
        StorageKeys::Custom { hash: sha256_of(material) }
    }

    /// The partition that holds the devices of registry `registry_name`.
    pub fn for_registry(registry_name: &String) -> (r: StorageKeys)
        ensures
            r@ == derived_partition(registry_partition_material(registry_name@)),
    {
        let mut material: Vec<u8> = Vec::new();
        material.push(0x72);
        material.push(0x65);
        material.push(0x67);
        push_utf8(&mut material, registry_name);
        assert(material@ =~= registry_partition_material(registry_name@));
        StorageKeys::derive(&material)
    }

    /// The partition that holds the metadata of device `device_name` of
    /// registry `registry_name`.
    pub fn for_metadata(registry_name: &String, device_name: &String) -> (r: StorageKeys)
        ensures
            r@ == derived_partition(metadata_partition_material(registry_name@, device_name@)),
    {
        let material = device_material((0x6d, 0x65, 0x74), registry_name, device_name);
        StorageKeys::derive(&material)
    }

    /// The partition that holds the data of device `device_name` of registry
    /// `registry_name`.
    pub fn for_data(registry_name: &String, device_name: &String) -> (r: StorageKeys)
        ensures
            r@ == derived_partition(data_partition_material(registry_name@, device_name@)),
    {
        let material = device_material((0x64, 0x61, 0x74), registry_name, device_name);
        StorageKeys::derive(&material)
    }

    /// A copy of this key.
    pub fn duplicate(&self) -> (r: StorageKeys)
        ensures
            r@ == self@,
    {
        match self {
            StorageKeys::Device => StorageKeys::Device,
            StorageKeys::Registry => StorageKeys::Registry,
            StorageKeys::Registries => StorageKeys::Registries,
            StorageKeys::DeviceData => StorageKeys::DeviceData,
            StorageKeys::DeviceMetadata => StorageKeys::DeviceMetadata,
            StorageKeys::Custom { hash } => {
                let mut copy: Vec<u8> = Vec::new();
                let mut i: usize = 0;
                while i < hash.len()
                    invariant
                        i <= hash.len(),
                        copy@ == hash@.subrange(0, i as int),
                    decreases hash.len() - i,
                {
                    copy.push(hash[i]);
                    i = i + 1;
                }
                assert(copy@ =~= hash@);
                StorageKeys::Custom { hash: copy }
            },
        }
    }
}

} // verus!
