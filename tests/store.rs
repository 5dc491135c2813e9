use device_registry::Contract;

fn s(text: &str) -> String {
    text.to_string()
}

fn garden_with_sensor(owner: &str) -> Contract {
    let mut contract = Contract::new();
    assert!(contract.create_registry(s(owner), s("Garden")));
    assert!(contract.add_device_to_registry(
        s(owner),
        s("Garden"),
        s("Temp 1"),
        s("Temperature sensor for Eastside Area 1"),
    ));
    contract
}

#[test]
fn unit_test() {
    let signer = s("bob_near");
    let mut contract = Contract::new();

    let new_registry = contract.create_registry(signer.clone(), "Garden".to_string());

    assert_eq!(new_registry, true);
    assert!(contract.registries.get(&"Garden".to_string()).is_some());

    // Add device to registry
    contract.add_device_to_registry(
        signer.clone(),
        "Garden".to_string(),
        "Temp 1".to_string(),
        "Temperature sensor for Eastside Area 1".to_string(),
    );
    let new_device = contract
        .registries
        .get(&"Garden".to_string())
        .unwrap()
        .devices
        .get(&"Temp 1".to_string())
        .unwrap();

    assert_eq!(new_device.name, "Temp 1".to_string());
    assert_eq!(
        new_device.description,
        "Temperature sensor for Eastside Area 1".to_string()
    );

    let _key: String = "temperature".to_string();
    let _value: String = "25 C°".to_string();
    contract.set_device_data(
        signer.clone(),
        "Garden".to_string(),
        "Temp 1".to_string(),
        format!(r#"{{"{}":"{}"}}"#, _key, _value),
    );

    let new_device_data = contract
        .registries
        .get(&"Garden".to_string())
        .unwrap()
        .devices
        .get(&"Temp 1".to_string())
        .unwrap();

    assert_eq!(new_device_data.data.get(&_key).unwrap(), _value);

    contract.get_device_data("Garden".to_string(), "Temp 1".to_string());

    let get_current_device_data = &contract
        .registries
        .get(&"Garden".to_string())
        .unwrap()
        .devices
        .get(&"Temp 1".to_string())
        .unwrap()
        .data;

    assert_eq!(get_current_device_data.get(&_key).unwrap(), _value);
}

#[test]
fn end_to_end_garden_scenario() {
    let mut contract = garden_with_sensor("bob");
    assert!(contract.set_device_data(
        s("bob"),
        s("Garden"),
        s("Temp 1"),
        s(r#"{"temperature":"25 C"}"#),
    ));
    assert_eq!(
        contract.get_device_data_param(s("Garden"), s("Temp 1"), s("temperature")),
        "25 C"
    );
    assert_eq!(
        contract.get_device_data(s("Garden"), s("Temp 1")),
        vec![(s("temperature"), s("25 C"))]
    );
}

#[test]
fn create_registry_twice_keeps_first_owner() {
    let mut contract = Contract::new();
    assert!(contract.create_registry(s("alice"), s("Garden")));
    assert!(!contract.create_registry(s("alice"), s("Garden")));
    assert!(!contract.create_registry(s("bob"), s("Garden")));
    let registry = contract.registries.get(&s("Garden")).unwrap();
    assert_eq!(registry.owner_id, "alice");
    assert_eq!(registry.name, "Garden");
}

#[test]
fn non_owner_mutations_fail_and_change_nothing() {
    let mut contract = garden_with_sensor("alice");
    assert!(contract.set_device_data_param(s("alice"), s("Garden"), s("Temp 1"), s("k"), s("v")));
    assert!(contract.set_device_metadata_param(
        s("alice"),
        s("Garden"),
        s("Temp 1"),
        s("m"),
        s("w"),
    ));

    assert!(!contract.add_device_to_registry(s("bob"), s("Garden"), s("Temp 2"), s("x")));
    assert!(!contract.set_device_data_param(s("bob"), s("Garden"), s("Temp 1"), s("k"), s("z")));
    assert!(!contract.set_device_metadata_param(
        s("bob"),
        s("Garden"),
        s("Temp 1"),
        s("m"),
        s("z"),
    ));
    assert!(!contract.set_device_data(s("bob"), s("Garden"), s("Temp 1"), s(r#"{"k":"z"}"#)));
    assert!(!contract.set_device_metadata(s("bob"), s("Garden"), s("Temp 1"), s(r#"{"m":"z"}"#)));
    assert!(!contract.delete_device_from_registry(s("bob"), s("Garden"), s("Temp 1")));
    assert!(!contract.delete_registry(s("bob"), s("Garden")));

    assert_eq!(contract.get_device_data(s("Garden"), s("Temp 1")), vec![(s("k"), s("v"))]);
    assert_eq!(contract.get_device_metadata(s("Garden"), s("Temp 1")), vec![(s("m"), s("w"))]);
    let registry = contract.registries.get(&s("Garden")).unwrap();
    assert!(registry.devices.contains_key(&s("Temp 1")));
    assert!(!registry.devices.contains_key(&s("Temp 2")));
    assert_eq!(registry.owner_id, "alice");
}

#[test]
fn non_owner_with_malformed_payload_gets_false() {
    let mut contract = garden_with_sensor("alice");
    assert!(!contract.set_device_data(s("bob"), s("Garden"), s("Temp 1"), s("not json")));
    assert_eq!(
        contract.try_set_device_data(s("bob"), s("Garden"), s("Temp 1"), s("not json")),
        Some(false)
    );
}

#[test]
fn data_param_set_then_get_round_trips() {
    let mut contract = garden_with_sensor("alice");
    assert!(contract.set_device_data_param(s("alice"), s("Garden"), s("Temp 1"), s("k"), s("v1")));
    assert_eq!(contract.get_device_data_param(s("Garden"), s("Temp 1"), s("k")), "v1");
    assert!(contract.set_device_data_param(s("alice"), s("Garden"), s("Temp 1"), s("k"), s("v2")));
    assert_eq!(contract.get_device_data_param(s("Garden"), s("Temp 1"), s("k")), "v2");
}

#[test]
fn metadata_param_set_then_get_round_trips() {
    let mut contract = garden_with_sensor("alice");
    assert!(contract.set_device_metadata_param(
        s("alice"),
        s("Garden"),
        s("Temp 1"),
        s("location"),
        s("Eastside Area 1"),
    ));
    assert_eq!(
        contract.get_device_metadata_param(s("Garden"), s("Temp 1"), s("location")),
        "Eastside Area 1"
    );
    assert_eq!(contract.get_device_data(s("Garden"), s("Temp 1")), vec![]);
}

#[test]
fn bulk_data_updates_merge() {
    let mut contract = garden_with_sensor("alice");
    assert!(contract.set_device_data(s("alice"), s("Garden"), s("Temp 1"), s(r#"{"a":"1"}"#)));
    assert!(contract.set_device_data(s("alice"), s("Garden"), s("Temp 1"), s(r#"{"b":"2"}"#)));
    let data = contract.get_device_data(s("Garden"), s("Temp 1"));
    assert_eq!(data.len(), 2);
    assert!(data.contains(&(s("a"), s("1"))));
    assert!(data.contains(&(s("b"), s("2"))));
}

#[test]
fn bulk_metadata_update_overrides_named_keys_only() {
    let mut contract = garden_with_sensor("alice");
    assert!(contract.set_device_metadata(
        s("alice"),
        s("Garden"),
        s("Temp 1"),
        s(r#"{"a":"1","b":"2"}"#),
    ));
    assert!(contract.set_device_metadata(
        s("alice"),
        s("Garden"),
        s("Temp 1"),
        s(r#"{"b":"3","c":"4"}"#),
    ));
    let metadata = contract.get_device_metadata(s("Garden"), s("Temp 1"));
    assert_eq!(metadata.len(), 3);
    assert!(metadata.contains(&(s("a"), s("1"))));
    assert!(metadata.contains(&(s("b"), s("3"))));
    assert!(metadata.contains(&(s("c"), s("4"))));
}

#[test]
fn same_device_name_in_two_registries_is_isolated() {
    let mut contract = Contract::new();
    assert!(contract.create_registry(s("alice"), s("Garden")));
    assert!(contract.create_registry(s("alice"), s("Barn")));
    assert!(contract.add_device_to_registry(s("alice"), s("Garden"), s("Temp 1"), s("g")));
    assert!(contract.add_device_to_registry(s("alice"), s("Barn"), s("Temp 1"), s("b")));
    assert!(contract.set_device_data_param(s("alice"), s("Garden"), s("Temp 1"), s("t"), s("20")));
    assert!(contract.set_device_metadata(s("alice"), s("Garden"), s("Temp 1"), s(r#"{"m":"x"}"#)));
    assert_eq!(contract.get_device_data(s("Barn"), s("Temp 1")), vec![]);
    assert_eq!(contract.get_device_metadata(s("Barn"), s("Temp 1")), vec![]);
    assert!(contract.set_device_data_param(s("alice"), s("Barn"), s("Temp 1"), s("t"), s("5")));
    assert_eq!(contract.get_device_data_param(s("Garden"), s("Temp 1"), s("t")), "20");
    assert_eq!(contract.get_device_data_param(s("Barn"), s("Temp 1"), s("t")), "5");

    let garden = contract.registries.get(&s("Garden")).unwrap().devices.get(&s("Temp 1")).unwrap();
    let barn = contract.registries.get(&s("Barn")).unwrap().devices.get(&s("Temp 1")).unwrap();
    let hash_of = |key: &device_registry::StorageKeys| match key {
        device_registry::StorageKeys::Custom { hash } => hash.clone(),
        _ => panic!("expected a derived partition"),
    };
    assert_ne!(hash_of(garden.data.partition()), hash_of(barn.data.partition()));
    assert_ne!(hash_of(garden.metadata.partition()), hash_of(barn.metadata.partition()));
}

#[test]
fn missing_entities_give_empty_or_sentinel_replies() {
    let contract = garden_with_sensor("alice");
    assert_eq!(contract.get_device_data(s("nope"), s("nope")), vec![]);
    assert_eq!(contract.get_device_metadata(s("nope"), s("nope")), vec![]);
    assert_eq!(
        contract.get_device_data_param(s("nope"), s("nope"), s("k")),
        "Not registry or not allowed"
    );
    assert_eq!(
        contract.get_device_metadata_param(s("nope"), s("nope"), s("k")),
        "Not registry or not allowed"
    );
    assert_eq!(contract.get_device_data(s("Garden"), s("nope")), vec![]);
    assert_eq!(contract.get_device_data_param(s("Garden"), s("nope"), s("k")), "Not device");
    assert_eq!(contract.get_device_metadata_param(s("Garden"), s("nope"), s("k")), "Not device");
}

#[test]
fn reads_need_no_ownership() {
    let mut contract = garden_with_sensor("alice");
    assert!(contract.set_device_data_param(s("alice"), s("Garden"), s("Temp 1"), s("k"), s("v")));
    assert_eq!(contract.get_device_data_param(s("Garden"), s("Temp 1"), s("k")), "v");
    assert_eq!(contract.get_device_data(s("Garden"), s("Temp 1")), vec![(s("k"), s("v"))]);
}

#[test]
fn gated_failures_return_false() {
    let mut contract = garden_with_sensor("alice");
    assert!(!contract.delete_registry(s("alice"), s("nope")));
    assert!(!contract.add_device_to_registry(s("alice"), s("nope"), s("d"), s("x")));
    assert!(!contract.add_device_to_registry(s("alice"), s("Garden"), s("Temp 1"), s("again")));
    assert!(!contract.delete_device_from_registry(s("alice"), s("Garden"), s("nope")));
    assert!(!contract.delete_device_from_registry(s("alice"), s("nope"), s("Temp 1")));
    assert!(!contract.set_device_data(s("alice"), s("Garden"), s("nope"), s("{}")));
    assert!(!contract.set_device_metadata(s("alice"), s("nope"), s("Temp 1"), s("{}")));
    assert!(!contract.set_device_data_param(s("alice"), s("Garden"), s("nope"), s("k"), s("v")));
    assert!(!contract.set_device_metadata_param(s("alice"), s("nope"), s("Temp 1"), s("k"), s("v")));
    let device = contract.registries.get(&s("Garden")).unwrap().devices.get(&s("Temp 1")).unwrap();
    assert_eq!(device.description, "Temperature sensor for Eastside Area 1");
}

#[test]
fn delete_device_then_add_again_starts_empty() {
    let mut contract = garden_with_sensor("alice");
    assert!(contract.set_device_data_param(s("alice"), s("Garden"), s("Temp 1"), s("k"), s("v")));
    assert!(contract.delete_device_from_registry(s("alice"), s("Garden"), s("Temp 1")));
    assert_eq!(contract.get_device_data_param(s("Garden"), s("Temp 1"), s("k")), "Not device");
    assert!(contract.add_device_to_registry(s("alice"), s("Garden"), s("Temp 1"), s("new")));
    assert_eq!(contract.get_device_data(s("Garden"), s("Temp 1")), vec![]);
}

#[test]
fn delete_registry_removes_its_devices() {
    let mut contract = garden_with_sensor("alice");
    assert!(contract.set_device_data_param(s("alice"), s("Garden"), s("Temp 1"), s("k"), s("v")));
    assert!(contract.delete_registry(s("alice"), s("Garden")));
    assert!(contract.registries.get(&s("Garden")).is_none());
    assert_eq!(contract.get_device_data(s("Garden"), s("Temp 1")), vec![]);
    assert!(contract.create_registry(s("bob"), s("Garden")));
    assert_eq!(
        contract.get_device_data_param(s("Garden"), s("Temp 1"), s("k")),
        "Not device"
    );
    assert!(!contract.delete_registry(s("alice"), s("Garden")));
}

#[test]
fn merge_takes_parsed_pairs() {
    let mut contract = garden_with_sensor("alice");
    assert!(contract.merge_device_data(s("alice"), s("Garden"), s("Temp 1"), vec![(s("a"), s("1"))]));
    assert!(contract.merge_device_data(s("alice"), s("Garden"), s("Temp 1"), vec![(s("b"), s("2"))]));
    let data = contract.get_device_data(s("Garden"), s("Temp 1"));
    assert_eq!(data.len(), 2);
    assert!(data.contains(&(s("a"), s("1"))));
    assert!(data.contains(&(s("b"), s("2"))));
    assert!(contract.merge_device_metadata(
        s("alice"),
        s("Garden"),
        s("Temp 1"),
        vec![(s("m"), s("1")), (s("m"), s("2"))],
    ));
    assert_eq!(contract.get_device_metadata(s("Garden"), s("Temp 1")), vec![(s("m"), s("2"))]);
    assert!(!contract.merge_device_data(s("bob"), s("Garden"), s("Temp 1"), vec![(s("a"), s("9"))]));
    assert!(!contract.merge_device_metadata(s("alice"), s("Garden"), s("nope"), vec![]));
    assert_eq!(contract.get_device_data_param(s("Garden"), s("Temp 1"), s("a")), "1");
}

#[test]
fn malformed_payload_is_reported_by_try_set() {
    let mut contract = garden_with_sensor("alice");
    assert_eq!(
        contract.try_set_device_data(s("alice"), s("Garden"), s("Temp 1"), s("{\"a\":1}")),
        None
    );
    assert_eq!(
        contract.try_set_device_metadata(s("alice"), s("Garden"), s("Temp 1"), s("[1,2]")),
        None
    );
    assert_eq!(contract.get_device_data(s("Garden"), s("Temp 1")), vec![]);
    assert_eq!(
        contract.try_set_device_data(s("alice"), s("Garden"), s("Temp 1"), s(r#"{"a":"1"}"#)),
        Some(true)
    );
    assert_eq!(
        contract.try_set_device_metadata(s("alice"), s("Garden"), s("Temp 1"), s(r#"{"m":"2"}"#)),
        Some(true)
    );
    assert_eq!(contract.get_device_data(s("Garden"), s("Temp 1")), vec![(s("a"), s("1"))]);
    assert_eq!(contract.get_device_metadata(s("Garden"), s("Temp 1")), vec![(s("m"), s("2"))]);
    assert_eq!(
        contract.try_set_device_data(s("alice"), s("nope"), s("Temp 1"), s("not json")),
        Some(false)
    );
}
