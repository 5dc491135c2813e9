use device_registry::{Device, FieldMap, NamedMap, Registry, StorageKeys};

fn s(text: &str) -> String {
    text.to_string()
}

fn custom_hash(key: &StorageKeys) -> Vec<u8> {
    match key {
        StorageKeys::Custom { hash } => hash.clone(),
        _ => panic!("expected a derived partition"),
    }
}

const MET_GARDEN_TEMP_1: [u8; 32] = [
    72, 89, 93, 76, 191, 174, 105, 218, 24, 186, 186, 80, 1, 22, 80, 167, 180, 216, 140, 27, 180,
    24, 101, 221, 50, 244, 11, 163, 117, 136, 108, 7,
];
const DAT_GARDEN_TEMP_1: [u8; 32] = [
    220, 181, 45, 141, 100, 240, 164, 11, 170, 145, 89, 168, 239, 9, 88, 171, 224, 31, 136, 86,
    198, 76, 49, 54, 119, 191, 167, 174, 133, 218, 64, 254,
];
const REG_GARDEN: [u8; 32] = [
    68, 239, 172, 255, 204, 211, 86, 190, 156, 109, 125, 207, 130, 201, 80, 184, 92, 27, 72, 140,
    126, 195, 60, 70, 28, 90, 170, 5, 230, 207, 163, 104,
];

#[test]
fn device_partitions_are_digests_of_namespaced_names() {
    let device = Device::new(s("Garden"), s("Temp 1"), s("sensor"));
    assert_eq!(custom_hash(device.metadata.partition()), MET_GARDEN_TEMP_1.to_vec());
    assert_eq!(custom_hash(device.data.partition()), DAT_GARDEN_TEMP_1.to_vec());
    assert_eq!(device.name, "Temp 1");
    assert_eq!(device.description, "sensor");
    assert_eq!(device.get_data(), vec![]);
    assert_eq!(device.get_metadata(), vec![]);
}

#[test]
fn registry_partition_is_digest_of_namespaced_name() {
    let registry = Registry::new(s("Garden"), s("bob"));
    assert_eq!(custom_hash(registry.devices.partition()), REG_GARDEN.to_vec());
    assert_eq!(registry.name, "Garden");
    assert_eq!(registry.owner_id, "bob");
    assert!(!registry.device_exists(s("Temp 1")));
}

#[test]
fn storage_key_derivation_is_deterministic() {
    let a = StorageKeys::for_data(&s("R"), &s("D"));
    let b = StorageKeys::for_data(&s("R"), &s("D"));
    let c = StorageKeys::for_metadata(&s("R"), &s("D"));
    assert_eq!(custom_hash(&a), custom_hash(&b));
    assert_ne!(custom_hash(&a), custom_hash(&c));
    assert_eq!(custom_hash(&a).len(), 32);
    assert_eq!(custom_hash(&StorageKeys::derive(&b"regGarden".to_vec())), REG_GARDEN.to_vec());
    assert_eq!(custom_hash(&StorageKeys::for_registry(&s("Garden"))), REG_GARDEN.to_vec());
    assert_eq!(custom_hash(&a.duplicate()), custom_hash(&a));
    assert!(matches!(StorageKeys::Registries.duplicate(), StorageKeys::Registries));
}

#[test]
fn underscores_in_names_do_not_collide() {
    let a = Device::new(s("a_b"), s("c"), s("x"));
    let b = Device::new(s("a"), s("b_c"), s("x"));
    assert_ne!(custom_hash(a.data.partition()), custom_hash(b.data.partition()));
    assert_ne!(custom_hash(a.metadata.partition()), custom_hash(b.metadata.partition()));
    let c = Device::new(s("ab"), s(""), s("x"));
    let d = Device::new(s("a"), s("b"), s("x"));
    assert_ne!(custom_hash(c.data.partition()), custom_hash(d.data.partition()));
    let e = Device::new(s("a"), s("b"), s("x"));
    assert_eq!(custom_hash(d.data.partition()), custom_hash(e.data.partition()));
}

#[test]
fn device_params_set_and_get() {
    let mut device = Device::new(s("R"), s("D"), s("x"));
    device.set_data_param(s("t"), s("1"));
    device.set_metadata_param(s("loc"), s("east"));
    device.set_data_param(s("t"), s("2"));
    assert_eq!(device.get_data_param(s("t")), "2");
    assert_eq!(device.get_metadata_param(s("loc")), "east");
    assert_eq!(device.get_data(), vec![(s("t"), s("2"))]);
    assert_eq!(device.get_metadata(), vec![(s("loc"), s("east"))]);
}

#[test]
fn device_bulk_set_merges() {
    let mut device = Device::new(s("R"), s("D"), s("x"));
    device.set_data(vec![(s("a"), s("1")), (s("b"), s("2"))]);
    device.set_data(vec![(s("b"), s("3")), (s("c"), s("4")), (s("c"), s("5"))]);
    let data = device.get_data();
    assert_eq!(data.len(), 3);
    assert!(data.contains(&(s("a"), s("1"))));
    assert!(data.contains(&(s("b"), s("3"))));
    assert!(data.contains(&(s("c"), s("5"))));
    device.set_metadata(vec![(s("m"), s("x"))]);
    assert_eq!(device.get_metadata(), vec![(s("m"), s("x"))]);
    assert_eq!(device.data.len(), 3);
}

#[test]
fn device_default_uses_fixed_partitions() {
    let device = Device::default();
    assert!(matches!(device.metadata.partition(), StorageKeys::DeviceMetadata));
    assert!(matches!(device.data.partition(), StorageKeys::DeviceData));
    assert_eq!(device.name, "");
    assert_eq!(device.description, "");
    assert_eq!(device.data.len(), 0);
}

#[test]
fn device_duplicate_is_independent() {
    let mut device = Device::new(s("R"), s("D"), s("x"));
    device.set_data_param(s("k"), s("v"));
    let mut copy = device.duplicate();
    assert_eq!(copy.get_data(), vec![(s("k"), s("v"))]);
    assert_eq!(custom_hash(copy.data.partition()), custom_hash(device.data.partition()));
    copy.set_data_param(s("k"), s("w"));
    assert_eq!(device.get_data_param(s("k")), "v");
    assert_eq!(copy.get_data_param(s("k")), "w");
}

#[test]
fn registry_add_get_remove_devices() {
    let mut registry = Registry::new(s("Garden"), s("bob"));
    registry.add_device(Device::new(s("Garden"), s("Temp 1"), s("first")));
    assert!(registry.device_exists(s("Temp 1")));
    let mut device = registry.get_device(s("Temp 1"));
    assert_eq!(device.description, "first");
    device.set_data_param(s("t"), s("20"));
    assert_eq!(registry.get_device(s("Temp 1")).get_data(), vec![]);
    registry.add_device(device);
    assert_eq!(registry.get_device(s("Temp 1")).get_data_param(s("t")), "20");
    registry.add_device(Device::new(s("Garden"), s("Temp 1"), s("second")));
    assert_eq!(registry.get_device(s("Temp 1")).description, "second");
    assert!(registry.remove_device(s("Temp 1")));
    assert!(!registry.device_exists(s("Temp 1")));
    assert!(!registry.remove_device(s("Temp 1")));
}

#[test]
fn registry_default_uses_fixed_partition() {
    let registry = Registry::default();
    assert!(matches!(registry.devices.partition(), StorageKeys::Registry));
    assert_eq!(registry.name, "");
    assert_eq!(registry.owner_id, "");
}

#[test]
fn field_map_operations() {
    let mut map = FieldMap::new(StorageKeys::DeviceData);
    assert_eq!(map.len(), 0);
    assert_eq!(map.get(&s("a")), None);
    assert_eq!(map.get_or_empty(&s("a")), "");
    map.insert(s("a"), s("1"));
    map.insert(s("b"), s("2"));
    map.insert(s("a"), s("3"));
    assert_eq!(map.len(), 2);
    assert!(map.contains_key(&s("a")));
    assert!(!map.contains_key(&s("z")));
    assert_eq!(map.get(&s("a")), Some(s("3")));
    assert_eq!(map.get_or_empty(&s("b")), "2");
    map.set_all(vec![(s("c"), s("4")), (s("a"), s("5"))]);
    let pairs = map.to_vec();
    assert_eq!(pairs.len(), 3);
    assert!(pairs.contains(&(s("a"), s("5"))));
    assert!(pairs.contains(&(s("b"), s("2"))));
    assert!(pairs.contains(&(s("c"), s("4"))));
    let copy = map.duplicate();
    assert_eq!(copy.to_vec(), pairs);
}

#[test]
fn named_map_insert_get_remove() {
    let mut index: NamedMap<Registry> = NamedMap::new(StorageKeys::Registries);
    index.insert(Registry::new(s("A"), s("x")));
    index.insert(Registry::new(s("B"), s("y")));
    index.insert(Registry::new(s("A"), s("z")));
    assert_eq!(index.get(&s("A")).unwrap().owner_id, "z");
    assert!(index.contains_key(&s("B")));
    let removed = index.remove(&s("B")).unwrap();
    assert_eq!(removed.owner_id, "y");
    assert!(index.get(&s("B")).is_none());
    assert!(index.remove(&s("B")).is_none());
    assert!(matches!(index.partition(), StorageKeys::Registries));
}
