use std::collections::HashMap;

use bluezadvertising::device1::{ManufacturerData, ServiceData, ValueError};
use bluezadvertising::event::{Event, ThermometerData};
use bluezadvertising::notification::{
    MessageKind, Notification, PropertiesChanged, PropertyValue, DEVICE_1, MANUFACTURER_DATA,
    PROPERTIES, PROPERTIES_CHANGED, SERVICE_DATA, THERMOMETER_UUID,
};
use zvariant::{Dict, OwnedValue, Signature, Value};

const PAYLOAD: [u8; 6] = [0x00, 0x00, 0x32, 0x01, 0x85, 0x28];

fn dict(
    keys: &'static str,
    values: &'static str,
    entries: Vec<(Value<'static>, Value<'static>)>,
) -> OwnedValue {
    let mut dict = Dict::new(
        Signature::from_static_str(keys).unwrap(),
        Signature::from_static_str(values).unwrap(),
    );
    for (key, value) in entries {
        dict.append(key, value).unwrap();
    }
    OwnedValue::try_from(dict).unwrap()
}

fn variant(value: Value<'static>) -> Value<'static> {
    Value::Value(Box::new(value))
}

fn thermometer_service_data() -> OwnedValue {
    dict(
        "s",
        "v",
        vec![
            (Value::from("0000fd3d-0000-1000-8000-00805f9b34fb"), variant(Value::from(vec![7u8]))),
            (Value::from(THERMOMETER_UUID), variant(Value::from(PAYLOAD.to_vec()))),
        ],
    )
}

#[test]
fn service_data_from_a_dictionary_of_variants() {
    let data = ServiceData::try_from(thermometer_service_data()).unwrap();
    assert_eq!(data.get(THERMOMETER_UUID), Some(&PAYLOAD.to_vec()));
    assert_eq!(data.get("0000fd3d-0000-1000-8000-00805f9b34fb"), Some(&vec![7]));
    assert_eq!(data.get("0000ffff-0000-1000-8000-00805f9b34fb"), None);
}

#[test]
fn service_data_from_a_dictionary_of_byte_arrays() {
    let mut map: HashMap<String, Vec<u8>> = HashMap::new();
    map.insert("a".to_string(), vec![1, 2, 3]);
    map.insert("b".to_string(), vec![]);
    let data = ServiceData::try_from(OwnedValue::from(map)).unwrap();
    assert_eq!(data.get("a"), Some(&vec![1, 2, 3]));
    assert_eq!(data.get("b"), Some(&vec![]));
    assert_eq!(data.get("c"), None);
}

#[test]
fn service_data_from_an_empty_dictionary() {
    let data = ServiceData::try_from(dict("s", "v", vec![])).unwrap();
    assert_eq!(data.get(THERMOMETER_UUID), None);
}

#[test]
fn service_data_from_other_values() {
    for value in [
        OwnedValue::from(7u32),
        OwnedValue::from(true),
        OwnedValue::try_from(Value::from("text")).unwrap(),
        OwnedValue::try_from(Value::from(vec![1u8, 2])).unwrap(),
        dict("q", "v", vec![(Value::U16(0x59), variant(Value::from(vec![1u8])))]),
        dict("s", "v", vec![(Value::from("a"), variant(Value::from("text")))]),
        dict("s", "s", vec![(Value::from("a"), Value::from("text"))]),
        dict(
            "s",
            "v",
            vec![
                (Value::from("a"), variant(Value::from(vec![1u8]))),
                (Value::from("b"), variant(Value::U32(1))),
            ],
        ),
    ] {
        assert_eq!(ServiceData::try_from(value).err(), Some(ValueError::IncorrectType));
    }
}

#[test]
fn manufacturer_data_from_a_dictionary() {
    let value = dict(
        "q",
        "v",
        vec![
            (Value::U16(0x0059), variant(Value::from(vec![0xaau8, 0xbb]))),
            (Value::U16(0xffff), variant(Value::from(Vec::<u8>::new()))),
        ],
    );
    let data = ManufacturerData::try_from(value).unwrap();
    assert_eq!(data.get(0x0059), Some(&vec![0xaa, 0xbb]));
    assert_eq!(data.get(0xffff), Some(&vec![]));
    assert_eq!(data.get(1), None);
}

#[test]
fn manufacturer_data_from_other_values() {
    for value in [
        OwnedValue::from(7u16),
        thermometer_service_data(),
        dict("q", "v", vec![(Value::U16(1), variant(Value::U16(2)))]),
        dict("u", "v", vec![(Value::U32(1), variant(Value::from(vec![1u8])))]),
    ] {
        assert_eq!(ManufacturerData::try_from(value).err(), Some(ValueError::IncorrectType));
    }
}

#[test]
fn entries_build_the_data() {
    let data = ServiceData::from_entries(vec![
        ("a".to_string(), vec![1]),
        ("b".to_string(), vec![2]),
        ("a".to_string(), vec![3]),
    ]);
    assert_eq!(data.get("a"), Some(&vec![3]));
    assert_eq!(data.get("b"), Some(&vec![2]));
    assert_eq!(ServiceData::from_entries(vec![]).get("a"), None);
    let data = ManufacturerData::from_entries(vec![(1, vec![1]), (2, vec![2]), (1, vec![3])]);
    assert_eq!(data.get(1), Some(&vec![3]));
    assert_eq!(data.get(2), Some(&vec![2]));
    assert_eq!(data.get(3), None);
}

#[test]
fn properties_are_read_by_name() {
    assert!(matches!(
        PropertyValue::interpret(SERVICE_DATA, thermometer_service_data()),
        PropertyValue::StringKeyedBytes(_)
    ));
    assert!(matches!(
        PropertyValue::interpret(MANUFACTURER_DATA, thermometer_service_data()),
        PropertyValue::Other
    ));
    assert!(matches!(
        PropertyValue::interpret("UUIDs", thermometer_service_data()),
        PropertyValue::Other
    ));
    assert!(matches!(
        PropertyValue::interpret(SERVICE_DATA, OwnedValue::from(-60i16)),
        PropertyValue::Other
    ));
    let manufacturer = dict("q", "v", vec![(Value::U16(0x59), variant(Value::from(vec![1u8])))]);
    assert!(matches!(
        PropertyValue::interpret(MANUFACTURER_DATA, manufacturer.try_clone().unwrap()),
        PropertyValue::U16KeyedBytes(_)
    ));
    assert!(matches!(
        PropertyValue::interpret(SERVICE_DATA, manufacturer),
        PropertyValue::Other
    ));
    assert!(matches!(
        PropertyValue::interpret("RSSI", OwnedValue::from(-60i16)),
        PropertyValue::Other
    ));
}

fn signal(body: PropertiesChanged) -> Notification {
    Notification {
        kind: MessageKind::Signal,
        interface: Some(PROPERTIES.to_string()),
        member: Some(PROPERTIES_CHANGED.to_string()),
        path: Some("/org/bluez/hci0/dev_AA_BB_CC_DD_EE_FF".to_string()),
        body: Some(body),
    }
}

#[test]
fn body_with_the_thermometer_payload() {
    let body = PropertiesChanged::from_body(
        DEVICE_1.to_string(),
        vec![
            ("RSSI".to_string(), OwnedValue::from(-60i16)),
            (SERVICE_DATA.to_string(), thermometer_service_data()),
        ],
        vec!["TxPower".to_string()],
    );
    assert_eq!(body.interface, DEVICE_1);
    assert_eq!(body.invalidated_properties, vec!["TxPower"]);
    assert!(body.changed_properties.contains_key("RSSI"));
    assert!(body.changed_properties.contains_key(SERVICE_DATA));
    assert!(!body.changed_properties.contains_key("TxPower"));
    assert_eq!(body.find_thermometer_payload(), Some(&PAYLOAD.to_vec()));
    assert_eq!(
        Event::from_message(&signal(body)),
        Some(Event::Updated(
            "/org/bluez/hci0/dev_AA_BB_CC_DD_EE_FF".to_string(),
            ThermometerData { data: PAYLOAD.to_vec() }
        ))
    );
}

#[test]
fn body_without_the_thermometer_payload() {
    let other = dict(
        "s",
        "v",
        vec![(Value::from("0000fd3d-0000-1000-8000-00805f9b34fb"), variant(Value::from(vec![7u8])))],
    );
    let body =
        PropertiesChanged::from_body(DEVICE_1.to_string(), vec![(SERVICE_DATA.to_string(), other)], vec![]);
    assert_eq!(body.find_thermometer_payload(), None);
    assert_eq!(Event::from_message(&signal(body)), None);
    let body = PropertiesChanged::from_body(
        DEVICE_1.to_string(),
        vec![(SERVICE_DATA.to_string(), OwnedValue::from(1u8))],
        vec![],
    );
    assert_eq!(body.find_thermometer_payload(), None);
    let body = PropertiesChanged::from_body(
        DEVICE_1.to_string(),
        vec![(MANUFACTURER_DATA.to_string(), thermometer_service_data())],
        vec![],
    );
    assert_eq!(body.find_thermometer_payload(), None);
    let body = PropertiesChanged::from_body(DEVICE_1.to_string(), vec![], vec![]);
    assert_eq!(body.find_thermometer_payload(), None);
}

#[test]
fn later_value_for_a_name_stays() {
    let body = PropertiesChanged::from_body(
        DEVICE_1.to_string(),
        vec![
            (SERVICE_DATA.to_string(), thermometer_service_data()),
            (SERVICE_DATA.to_string(), OwnedValue::from(1u8)),
        ],
        vec![],
    );
    assert_eq!(body.find_thermometer_payload(), None);
    let body = PropertiesChanged::from_body(
        DEVICE_1.to_string(),
        vec![
            (SERVICE_DATA.to_string(), OwnedValue::from(1u8)),
            (SERVICE_DATA.to_string(), thermometer_service_data()),
        ],
        vec![],
    );
    assert_eq!(body.find_thermometer_payload(), Some(&PAYLOAD.to_vec()));
}

#[test]
fn bytes_wrapped_in_variants_are_unwrapped() {
    // An array built from values holds each of them in a variant.
    let bytes = zvariant::Array::from(vec![Value::U8(1), Value::U8(2)]);
    assert_eq!(bytes.element_signature().as_str(), "v");
    let value = dict("s", "av", vec![(Value::from("a"), Value::Array(bytes))]);
    let data = ServiceData::try_from(value).unwrap();
    assert_eq!(data.get("a"), Some(&vec![1, 2]));
}
