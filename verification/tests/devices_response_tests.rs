use hue_observer::devices_response::{Archetype, ButtonEvent, Resource};
use hue_observer::parse::parse_response;
use hue_observer::raw::{RawField, RawNumber, RawValue};

fn obj(fields: Vec<(&str, RawValue)>) -> RawValue {
    RawValue::Obj(
        fields.into_iter().map(|(key, value)| RawField { key: key.to_string(), value }).collect(),
    )
}

fn arr(items: Vec<RawValue>) -> RawValue {
    RawValue::Arr(items)
}

fn s(text: &str) -> RawValue {
    RawValue::Str(text.to_string())
}

fn flag(v: bool) -> RawValue {
    RawValue::Bool(v)
}

fn uint(v: u64) -> RawValue {
    RawValue::Num(RawNumber::Uint(v))
}

fn num(v: f64) -> RawValue {
    RawValue::Num(RawNumber::Float(v.to_bits()))
}

fn rig(rid: &str, rtype: &str) -> RawValue {
    obj(vec![("rid", s(rid)), ("rtype", s(rtype))])
}

fn device_resource() -> RawValue {
    obj(vec![
        ("type", s("device")),
        ("id", s("90bdce60-3704-470e-be4c-8264f2bc8151")),
        ("metadata", obj(vec![("archetype", s("vintage_bulb")), ("name", s("Light"))])),
        (
            "product_data",
            obj(vec![
                ("model_id", s("LWA021")),
                ("manufacturer_name", s("Signify Netherlands B.V.")),
                ("product_name", s("Hue filament bulb")),
                ("product_archetype", s("vintage_bulb")),
                ("certified", flag(true)),
                ("software_version", s("1.104.2")),
            ]),
        ),
        (
            "services",
            arr(vec![
                rig("7a0ece11-0e2d-4bbf-b290-1d575b541533", "zigbee_connectivity"),
                rig("4e5ad66f-633e-4300-84cd-634129fdb451", "light"),
                rig("5d25baca-11e6-4635-91e2-e4db0b538cc9", "taurus_7455"),
                rig("64ac92d6-41b3-4f81-bd6d-315f01dc59c3", "device_software_update"),
            ]),
        ),
    ])
}

fn light_resource() -> RawValue {
    obj(vec![
        ("type", s("light")),
        ("id", s("4e5ad66f-633e-4300-84cd-634129fdb451")),
        ("owner", rig("90bdce60-3704-470e-be4c-8264f2bc8151", "device")),
        ("on", obj(vec![("on", flag(true))])),
        ("dimming", obj(vec![("brightness", num(24.11)), ("min_dim_level", num(2.0))])),
        (
            "color_temperature",
            obj(vec![
                ("mirek", RawValue::Null),
                ("mirek_valid", flag(false)),
                (
                    "mirek_schema",
                    obj(vec![("mirek_minimum", uint(153)), ("mirek_maximum", uint(500))]),
                ),
            ]),
        ),
        (
            "color",
            obj(vec![
                ("xy", obj(vec![("x", num(0.669)), ("y", num(0.3251))])),
                (
                    "gamut",
                    obj(vec![
                        ("red", obj(vec![("x", num(0.675)), ("y", num(0.322))])),
                        ("green", obj(vec![("x", num(0.409)), ("y", num(0.518))])),
                        ("blue", obj(vec![("x", num(0.167)), ("y", num(0.04))])),
                    ]),
                ),
                ("gamut_type", s("B")),
            ]),
        ),
        (
            "dynamics",
            obj(vec![
                ("status", s("none")),
                ("status_values", arr(vec![s("none")])),
                ("speed", num(0.0)),
                ("speed_valid", flag(false)),
            ]),
        ),
        ("alert", obj(vec![("action_values", arr(vec![s("breathe")]))])),
    ])
}

fn light_fixture() -> RawValue {
    obj(vec![
        ("errors", arr(vec![])),
        ("data", arr(vec![device_resource(), light_resource()])),
    ])
}

fn button_resource(
    id: &str,
    owner_rid: &str,
    control_id: u64,
    report: Option<(&str, &str)>,
    events: Vec<&str>,
) -> RawValue {
    let mut button_fields = vec![];
    if let Some((updated, event)) = report {
        button_fields.push(("button_report", obj(vec![("updated", s(updated)), ("event", s(event))])));
    }
    button_fields.push(("repeat_interval", uint(800)));
    button_fields.push(("event_values", arr(events.into_iter().map(s).collect())));
    obj(vec![
        ("type", s("button")),
        ("id", s(id)),
        ("owner", rig(owner_rid, "device")),
        ("metadata", obj(vec![("control_id", uint(control_id))])),
        ("button", obj(button_fields)),
    ])
}

fn button_fixture() -> RawValue {
    let owner = "e84075f8-023f-43e7-80ea-c0246fdf2835";
    let events = vec!["initial_press", "repeat", "short_release", "long_release", "long_press"];
    let switch = obj(vec![
        ("type", s("device")),
        ("id", s(owner)),
        ("metadata", obj(vec![("archetype", s("unknown_archetype")), ("name", s("Dimmer"))])),
        (
            "product_data",
            obj(vec![
                ("model_id", s("RWL021")),
                ("manufacturer_name", s("Signify Netherlands B.V.")),
                ("product_name", s("Hue dimmer switch")),
                ("product_archetype", s("unknown_archetype")),
                ("certified", flag(true)),
                ("software_version", s("2.44.0")),
            ]),
        ),
        (
            "services",
            arr(vec![
                rig("9ea998a8-c996-4a8b-a652-cb7baa9d26e5", "button"),
                rig("cee245f5-db5a-4876-980c-f32d958e2392", "button"),
                rig("5b0b1c82-ae2f-44f8-a45c-eb322c16e3e6", "button"),
                rig("e9b7d173-6074-40f5-bd65-38b5cbbb1cf0", "button"),
            ]),
        ),
    ]);
    obj(vec![
        ("errors", arr(vec![])),
        (
            "data",
            arr(vec![
                switch,
                button_resource(
                    "9ea998a8-c996-4a8b-a652-cb7baa9d26e5",
                    owner,
                    1,
                    None,
                    events.clone(),
                ),
                button_resource(
                    "cee245f5-db5a-4876-980c-f32d958e2392",
                    owner,
                    2,
                    Some(("1970-01-01T00:00:00Z", "short_release")),
                    events.clone(),
                ),
                button_resource(
                    "5b0b1c82-ae2f-44f8-a45c-eb322c16e3e6",
                    owner,
                    3,
                    None,
                    events.clone(),
                ),
                button_resource(
                    "e9b7d173-6074-40f5-bd65-38b5cbbb1cf0",
                    owner,
                    4,
                    None,
                    events,
                ),
            ]),
        ),
    ])
}

#[test]
fn deserializes_a_response_with_data() {
    let response = parse_response(&light_fixture()).unwrap();

    let data = response.data();
    let errors = response.errors();

    assert_eq!(0, errors.len());
    assert_eq!(2, data.len());
}

#[test]
fn deserializes_a_device() {
    let response = parse_response(&light_fixture()).unwrap();

    if let Resource::Device(device) = response.data()[0] {
        assert_eq!("90bdce60-3704-470e-be4c-8264f2bc8151", device.id);
        assert_eq!(Archetype::VintageBulb, device.metadata.archetype);
        assert_eq!("Light", device.metadata.name);
        assert_eq!("LWA021", device.product_data.model_id);
        assert_eq!("Signify Netherlands B.V.", device.product_data.manufacturer_name);
        assert_eq!("Hue filament bulb", device.product_data.product_name);
        assert_eq!(Archetype::VintageBulb, device.product_data.product_archetype);
        assert!(device.product_data.certified);
        assert_eq!("1.104.2", device.product_data.software_version);
        assert_eq!(4, device.services.len());
        assert_eq!("7a0ece11-0e2d-4bbf-b290-1d575b541533", device.services[0].rid);
        assert_eq!("zigbee_connectivity", device.services[0].rtype);
        assert_eq!("4e5ad66f-633e-4300-84cd-634129fdb451", device.services[1].rid);
        assert_eq!("light", device.services[1].rtype);
        assert_eq!("5d25baca-11e6-4635-91e2-e4db0b538cc9", device.services[2].rid);
        assert_eq!("taurus_7455", device.services[2].rtype);
        assert_eq!("64ac92d6-41b3-4f81-bd6d-315f01dc59c3", device.services[3].rid);
        assert_eq!("device_software_update", device.services[3].rtype);
    } else {
        assert!(false, "data[0] is not a Resource::Device");
    }
}

#[test]
fn deserializes_a_light() {
    let response = parse_response(&light_fixture()).unwrap();

    if let Resource::Light(light) = response.data()[1] {
        assert_eq!("4e5ad66f-633e-4300-84cd-634129fdb451", light.id);
        assert_eq!("90bdce60-3704-470e-be4c-8264f2bc8151", light.owner.rid);
        assert_eq!("device", light.owner.rtype);
        assert!(light.on.on);
        assert_eq!(RawNumber::Float(24.11f64.to_bits()), light.dimming().unwrap().brightness);
        assert_eq!(
            RawNumber::Float(2.0f64.to_bits()),
            light.dimming().unwrap().min_dim_level.unwrap()
        );
        assert!(light.color_temperature().unwrap().mirek.is_none());
        assert_eq!(false, light.color_temperature().unwrap().mirek_valid);
        assert_eq!(153, light.color_temperature().unwrap().mirek_schema.mirek_minimum);
        assert_eq!(500, light.color_temperature().unwrap().mirek_schema.mirek_maximum);
        assert_eq!(RawNumber::Float(0.669f64.to_bits()), light.color().unwrap().xy.x);
        assert_eq!(RawNumber::Float(0.3251f64.to_bits()), light.color().unwrap().xy.y);
        assert_eq!(RawNumber::Float(0.675f64.to_bits()), light.color().unwrap().gamut.red.x);
        assert_eq!(RawNumber::Float(0.322f64.to_bits()), light.color().unwrap().gamut.red.y);
        assert_eq!(RawNumber::Float(0.409f64.to_bits()), light.color().unwrap().gamut.green.x);
        assert_eq!(RawNumber::Float(0.518f64.to_bits()), light.color().unwrap().gamut.green.y);
        assert_eq!(RawNumber::Float(0.167f64.to_bits()), light.color().unwrap().gamut.blue.x);
        assert_eq!(RawNumber::Float(0.04f64.to_bits()), light.color().unwrap().gamut.blue.y);
        assert_eq!('B', light.color().unwrap().gamut_type);
        assert_eq!("none", light.dynamics().unwrap().status);
        assert_eq!(vec!["none".to_string()], light.dynamics().unwrap().status_values);
        assert_eq!(RawNumber::Float(0.0f64.to_bits()), light.dynamics().unwrap().speed);
        assert_eq!(false, light.dynamics().unwrap().speed_valid);
        assert_eq!(vec!["breathe".to_string()], light.alert().unwrap().action_values);
    } else {
        assert!(false, "data[1] is not a Resource::Light");
    }
}

#[test]
fn deserializes_a_button() {
    let response = parse_response(&button_fixture()).unwrap();

    let data = response.data();
    let errors = response.errors();

    assert_eq!(0, errors.len());
    assert_eq!(5, data.len()); // Device and 4 buttons

    if let Resource::Button(button) = data[1] {
        assert_eq!("9ea998a8-c996-4a8b-a652-cb7baa9d26e5", button.id);
        assert_eq!("e84075f8-023f-43e7-80ea-c0246fdf2835", button.owner.rid);
        assert_eq!("device", button.owner.rtype);
        assert_eq!(1, button.metadata.control_id);
        assert!(button.button.button_report.is_none());
        assert_eq!(800, button.button.repeat_interval);
        assert_eq!(
            vec![
                ButtonEvent::InitialPress,
                ButtonEvent::Repeat,
                ButtonEvent::ShortRelease,
                ButtonEvent::LongRelease,
                ButtonEvent::LongPress
            ],
            button.button.event_values()
        );
    } else {
        assert!(false, "data[1] is not a Resource::Button");
    }

    if let Resource::Button(button) = data[2] {
        assert_eq!("cee245f5-db5a-4876-980c-f32d958e2392", button.id);
        assert_eq!(0, button.button.button_report().unwrap().updated);
        assert_eq!(ButtonEvent::ShortRelease, button.button.button_report().unwrap().event);
    } else {
        assert!(false, "data[2] is not a Resource::Button");
    }
}

#[test]
fn parses_an_unrecognized_resource_kind_as_unknown() {
    let fixture = obj(vec![
        ("errors", arr(vec![])),
        (
            "data",
            arr(vec![obj(vec![
                ("type", s("zigbee_connectivity")),
                ("id", s("7a0ece11-0e2d-4bbf-b290-1d575b541533")),
                ("status", s("connected")),
            ])]),
        ),
    ]);
    let response = parse_response(&fixture).unwrap();

    // Excluded from the candidate data, but parsed without an error.
    assert_eq!(0, response.data().len());
    assert_eq!(1, response.data.len());
    match &response.data[0] {
        Resource::Unknown { id } => {
            assert_eq!(Some(&"7a0ece11-0e2d-4bbf-b290-1d575b541533".to_string()), id.as_ref());
        }
        other => panic!("expected an Unknown resource, got {:?}", other),
    }
}

#[test]
fn parses_an_unrecognized_archetype_as_fallback() {
    let mut device = device_resource();
    if let RawValue::Obj(ref mut fields) = device {
        fields[2].value = obj(vec![("archetype", s("hologram_projector")), ("name", s("Light"))]);
    }
    let fixture = obj(vec![("errors", arr(vec![])), ("data", arr(vec![device]))]);
    let response = parse_response(&fixture).unwrap();

    if let Resource::Device(d) = response.data()[0] {
        assert_eq!(Archetype::UnrecognizedArchetype, d.metadata.archetype);
    } else {
        assert!(false, "data[0] is not a Resource::Device");
    }
}

#[test]
fn parses_an_unrecognized_button_event_as_fallback() {
    let fixture = obj(vec![
        ("errors", arr(vec![])),
        (
            "data",
            arr(vec![button_resource(
                "9ea998a8-c996-4a8b-a652-cb7baa9d26e5",
                "e84075f8-023f-43e7-80ea-c0246fdf2835",
                1,
                None,
                vec!["initial_press", "quadruple_tap"],
            )]),
        ),
    ]);
    let response = parse_response(&fixture).unwrap();

    if let Resource::Button(button) = response.data()[0] {
        assert_eq!(
            vec![ButtonEvent::InitialPress, ButtonEvent::UnrecognizedEvent],
            button.button.event_values()
        );
    } else {
        assert!(false, "data[0] is not a Resource::Button");
    }
}

#[test]
fn parses_a_button_report_timestamp() {
    let fixture = obj(vec![
        ("errors", arr(vec![])),
        (
            "data",
            arr(vec![button_resource(
                "9ea998a8-c996-4a8b-a652-cb7baa9d26e5",
                "e84075f8-023f-43e7-80ea-c0246fdf2835",
                1,
                Some(("1970-01-01T00:00:01.500Z", "long_press")),
                vec!["long_press"],
            )]),
        ),
    ]);
    let response = parse_response(&fixture).unwrap();

    if let Resource::Button(button) = response.data()[0] {
        assert_eq!(1500, button.button.button_report().unwrap().updated);
        assert_eq!(ButtonEvent::LongPress, button.button.button_report().unwrap().event);
    } else {
        assert!(false, "data[0] is not a Resource::Button");
    }
}

#[test]
fn reads_the_mirek_value_through_the_getter() {
    let mut light = light_resource();
    if let RawValue::Obj(ref mut fields) = light {
        fields[5].value = obj(vec![
            ("mirek", uint(300)),
            ("mirek_valid", flag(true)),
            ("mirek_schema", obj(vec![("mirek_minimum", uint(153)), ("mirek_maximum", uint(500))])),
        ]);
    }
    let fixture = obj(vec![("errors", arr(vec![])), ("data", arr(vec![light]))]);
    let response = parse_response(&fixture).unwrap();

    if let Resource::Light(light) = response.data()[0] {
        assert_eq!(Some(&300), light.color_temperature().unwrap().mirek());
        assert!(light.color_temperature().unwrap().mirek_valid);
    } else {
        assert!(false, "data[0] is not a Resource::Light");
    }
}

#[test]
fn rejects_a_known_kind_with_a_malformed_payload() {
    // A light without its required `on` block.
    let fixture = obj(vec![
        ("errors", arr(vec![])),
        (
            "data",
            arr(vec![obj(vec![
                ("type", s("light")),
                ("id", s("4e5ad66f-633e-4300-84cd-634129fdb451")),
                ("owner", rig("90bdce60-3704-470e-be4c-8264f2bc8151", "device")),
            ])]),
        ),
    ]);
    let err = parse_response(&fixture).unwrap_err();
    assert!(matches!(err, hue_observer::error::HueObserverError::MalformedResource));
}

#[test]
fn rejects_a_bad_timestamp_in_a_button_report() {
    let fixture = obj(vec![
        ("errors", arr(vec![])),
        (
            "data",
            arr(vec![button_resource(
                "9ea998a8-c996-4a8b-a652-cb7baa9d26e5",
                "e84075f8-023f-43e7-80ea-c0246fdf2835",
                1,
                Some(("not-a-timestamp", "long_press")),
                vec!["long_press"],
            )]),
        ),
    ]);
    let err = parse_response(&fixture).unwrap_err();
    assert!(matches!(err, hue_observer::error::HueObserverError::MalformedResource));
}
