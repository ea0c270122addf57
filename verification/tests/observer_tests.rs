use hue_observer::catalog::Catalog;
use hue_observer::devices_response::Resource;
use hue_observer::error::HueObserverError;
use hue_observer::event::Event;
use hue_observer::model::{DeviceType, Property, PropertyType};
use hue_observer::observer::{fold_device, observe_snapshot};
use hue_observer::parse::parse_response;
use hue_observer::raw::{RawField, RawNumber, RawValue};

fn obj(fields: Vec<(&str, RawValue)>) -> RawValue {
    RawValue::Obj(
        fields.into_iter().map(|(key, value)| RawField { key: key.to_string(), value }).collect(),
    )
}

fn arr(items: Vec<RawValue>) -> RawValue {
    RawValue::Arr(items)
}

fn s(text: &str) -> RawValue {
    RawValue::Str(text.to_string())
}

fn flag(v: bool) -> RawValue {
    RawValue::Bool(v)
}

fn uint(v: u64) -> RawValue {
    RawValue::Num(RawNumber::Uint(v))
}

fn num(v: f64) -> RawValue {
    RawValue::Num(RawNumber::Float(v.to_bits()))
}

fn rig(rid: &str, rtype: &str) -> RawValue {
    obj(vec![("rid", s(rid)), ("rtype", s(rtype))])
}

const DEVICE_ID: &str = "90bdce60-3704-470e-be4c-8264f2bc8151";
const LIGHT_ID: &str = "4e5ad66f-633e-4300-84cd-634129fdb451";

fn device_resource(services: Vec<RawValue>) -> RawValue {
    obj(vec![
        ("type", s("device")),
        ("id", s(DEVICE_ID)),
        ("metadata", obj(vec![("archetype", s("vintage_bulb")), ("name", s("Light"))])),
        (
            "product_data",
            obj(vec![
                ("model_id", s("LWA021")),
                ("manufacturer_name", s("Signify Netherlands B.V.")),
                ("product_name", s("Hue filament bulb")),
                ("product_archetype", s("vintage_bulb")),
                ("certified", flag(true)),
                ("software_version", s("1.104.2")),
            ]),
        ),
        ("services", arr(services)),
    ])
}

fn light_resource(id: &str, on: bool) -> RawValue {
    obj(vec![
        ("type", s("light")),
        ("id", s(id)),
        ("owner", rig(DEVICE_ID, "device")),
        ("on", obj(vec![("on", flag(on))])),
        ("dimming", obj(vec![("brightness", num(24.11)), ("min_dim_level", num(2.0))])),
    ])
}

/// One device referencing one light plus unmapped services: the worked
/// example of the whole pipeline.
fn light_fixture() -> RawValue {
    obj(vec![
        ("errors", arr(vec![])),
        (
            "data",
            arr(vec![
                device_resource(vec![
                    rig("7a0ece11-0e2d-4bbf-b290-1d575b541533", "zigbee_connectivity"),
                    rig(LIGHT_ID, "light"),
                    rig("64ac92d6-41b3-4f81-bd6d-315f01dc59c3", "device_software_update"),
                ]),
                light_resource(LIGHT_ID, true),
            ]),
        ),
    ])
}

#[test]
fn folds_a_device_with_one_service() {
    let response = parse_response(&light_fixture()).unwrap();

    if let Resource::Device(device) = &response.data[0] {
        let catalog = Catalog::build(&response.data);
        let devices = fold_device(vec![], device, &catalog).unwrap();
        assert_eq!(1, devices.len());
        assert_eq!(1, devices[0].properties().len());

        if let Some(Property::Boolean(on_property)) = devices[0].properties().get("on") {
            assert_eq!("on", on_property.name());
            assert_eq!(false, on_property.readonly());
            assert_eq!(PropertyType::On, *on_property.property_type());
            assert_eq!(None, on_property.external_id());
            assert_eq!(true, on_property.value());
        } else {
            assert!(false, r#"property["on"] is not a Property::Boolean"#);
        }
        let property = devices[0].properties().get("on").unwrap();
        assert!(matches!(property, Property::Boolean(_)))
    } else {
        assert!(false, "data[0] is not a Resource::Device");
    }
}

#[test]
fn folds_a_device_with_no_used_services() {
    let fixture = obj(vec![
        ("errors", arr(vec![])),
        (
            "data",
            arr(vec![device_resource(vec![
                rig("7a0ece11-0e2d-4bbf-b290-1d575b541533", "zigbee_connectivity"),
                rig("64ac92d6-41b3-4f81-bd6d-315f01dc59c3", "device_software_update"),
            ])]),
        ),
    ]);
    let response = parse_response(&fixture).unwrap();

    if let Resource::Device(device) = &response.data[0] {
        let catalog = Catalog::build(&response.data);
        let devices = fold_device(vec![], device, &catalog).unwrap();
        assert_eq!(0, devices.len());
    } else {
        assert!(false, "data[0] is not a Resource::Device");
    }
}

#[test]
fn observes_one_device_with_one_on_property() {
    let event = observe_snapshot(&light_fixture()).unwrap();

    let Event::DiscoveredDevices(devices) = event;
    assert_eq!(1, devices.len());
    let device = &devices[0];
    assert_eq!(DEVICE_ID, device.id());
    assert_eq!(DeviceType::Light, *device.device_type());
    assert_eq!("Signify Netherlands B.V.", device.manufacturer());
    assert_eq!("LWA021", device.model_id());
    assert_eq!("Hue filament bulb", device.product_name());
    assert_eq!("Light", device.name());
    assert_eq!(None, device.external_id());
    assert_eq!(1, device.properties().len());
    if let Some(Property::Boolean(on_property)) = device.properties().get("on") {
        assert_eq!(true, on_property.value());
    } else {
        assert!(false, r#"property["on"] is not a Property::Boolean"#);
    }
}

#[test]
fn yields_no_devices_for_a_collection_without_device_resources() {
    let fixture = obj(vec![
        ("errors", arr(vec![])),
        ("data", arr(vec![light_resource(LIGHT_ID, true)])),
    ]);
    let event = observe_snapshot(&fixture).unwrap();

    let Event::DiscoveredDevices(devices) = event;
    assert_eq!(0, devices.len());
}

#[test]
fn bridge_errors_abort_the_pass_even_with_resolvable_data() {
    let mut fixture = light_fixture();
    if let RawValue::Obj(ref mut fields) = fixture {
        fields[0].value = arr(vec![obj(vec![("description", s("hue error 1"))]), obj(vec![(
            "description",
            s("hue error 2"),
        )])]);
    }
    let err = observe_snapshot(&fixture).unwrap_err();

    if let HueObserverError::BridgeReportedErrors(errors) = err {
        assert_eq!(2, errors.len());
        assert_eq!("hue error 1", errors[0].description);
        assert_eq!("hue error 2", errors[1].description);
    } else {
        panic!("expected BridgeReportedErrors, got {:?}", err);
    }
}

#[test]
fn a_dangling_light_reference_aborts_the_pass() {
    let fixture = obj(vec![
        ("errors", arr(vec![])),
        (
            "data",
            arr(vec![device_resource(vec![rig(
                "ffffffff-0000-0000-0000-000000000000",
                "light",
            )])]),
        ),
    ]);
    let err = observe_snapshot(&fixture).unwrap_err();
    assert!(matches!(err, HueObserverError::DanglingReference));
}

#[test]
fn a_mismatched_light_reference_aborts_the_pass() {
    // The reference claims `light` but the catalog holds an unrecognized
    // resource under that id.
    let fixture = obj(vec![
        ("errors", arr(vec![])),
        (
            "data",
            arr(vec![
                device_resource(vec![rig(LIGHT_ID, "light")]),
                obj(vec![("type", s("smart_toaster")), ("id", s(LIGHT_ID))]),
            ]),
        ),
    ]);
    let err = observe_snapshot(&fixture).unwrap_err();
    assert!(matches!(err, HueObserverError::InvalidData));
}

#[test]
fn an_unrecognized_resource_kind_is_skipped_without_error() {
    let fixture = obj(vec![
        ("errors", arr(vec![])),
        (
            "data",
            arr(vec![
                obj(vec![("type", s("smart_toaster")), ("id", s("7a0ece11-aaaa"))]),
                device_resource(vec![rig(LIGHT_ID, "light")]),
                light_resource(LIGHT_ID, false),
            ]),
        ),
    ]);
    let event = observe_snapshot(&fixture).unwrap();

    let Event::DiscoveredDevices(devices) = event;
    assert_eq!(1, devices.len());
    if let Some(Property::Boolean(on_property)) = devices[0].properties().get("on") {
        assert_eq!(false, on_property.value());
    } else {
        assert!(false, r#"property["on"] is not a Property::Boolean"#);
    }
}

#[test]
fn a_duplicate_id_resolves_to_the_later_resource() {
    // Last write wins in the catalog: the second light under the same id is
    // the one the device's reference resolves to.
    let fixture = obj(vec![
        ("errors", arr(vec![])),
        (
            "data",
            arr(vec![
                device_resource(vec![rig(LIGHT_ID, "light")]),
                light_resource(LIGHT_ID, false),
                light_resource(LIGHT_ID, true),
            ]),
        ),
    ]);
    let event = observe_snapshot(&fixture).unwrap();

    let Event::DiscoveredDevices(devices) = event;
    assert_eq!(1, devices.len());
    if let Some(Property::Boolean(on_property)) = devices[0].properties().get("on") {
        assert_eq!(true, on_property.value());
    } else {
        assert!(false, r#"property["on"] is not a Property::Boolean"#);
    }
}

#[test]
fn a_device_with_only_unmapped_services_contributes_nothing() {
    let fixture = obj(vec![
        ("errors", arr(vec![])),
        (
            "data",
            arr(vec![device_resource(vec![
                rig("7a0ece11-0e2d-4bbf-b290-1d575b541533", "zigbee_connectivity"),
                rig("64ac92d6-41b3-4f81-bd6d-315f01dc59c3", "device_software_update"),
            ])]),
        ),
    ]);
    let event = observe_snapshot(&fixture).unwrap();

    let Event::DiscoveredDevices(devices) = event;
    assert_eq!(0, devices.len());
}

#[test]
fn reads_bridge_errors_through_the_response() {
    let fixture = obj(vec![
        ("errors", arr(vec![obj(vec![("description", s("bridge overloaded"))])])),
        ("data", arr(vec![])),
    ]);
    let response = parse_response(&fixture).unwrap();
    let errors = response.errors();
    assert_eq!(1, errors.len());
    assert_eq!("bridge overloaded", errors[0].description);
}

#[test]
fn a_malformed_response_shape_aborts_the_pass() {
    let fixture = obj(vec![("data", arr(vec![]))]);
    let err = observe_snapshot(&fixture).unwrap_err();
    assert!(matches!(err, HueObserverError::MalformedResource));
}
