use hue_observer::model::{
    BooleanProperty, Common, Device, DeviceType, NumberProperty, Property, PropertyMap,
    PropertyType, Unit,
};

#[test]
fn a_boolean_property_keeps_what_it_was_built_from() {
    let p = BooleanProperty::new(
        "on".to_string(),
        false,
        PropertyType::On,
        Some("ext-1".to_string()),
        true,
    );
    assert_eq!("on", p.name());
    assert_eq!(false, p.readonly());
    assert_eq!(PropertyType::On, *p.property_type());
    assert_eq!(Some(&"ext-1".to_string()), p.external_id());
    assert_eq!(true, p.value());
}

#[test]
fn a_number_property_keeps_what_it_was_built_from() {
    let p = NumberProperty::new(
        "brightness".to_string(),
        true,
        PropertyType::Brightness,
        None,
        Unit::Percentage,
        Some(24),
        Some(0),
        Some(100),
    );
    assert_eq!("brightness", p.name());
    assert_eq!(true, p.readonly());
    assert_eq!(PropertyType::Brightness, *p.property_type());
    assert_eq!(None, p.external_id());
    assert_eq!(Unit::Percentage, *p.unit());
    assert_eq!(Some(24), p.value());
    assert_eq!(Some(0), p.minimum());
    assert_eq!(Some(100), p.maximum());
}

#[test]
fn common_metadata_keeps_what_it_was_built_from() {
    let c = Common::new("battery".to_string(), true, PropertyType::BatteryLevel, None);
    assert_eq!("battery", c.name());
    assert_eq!(true, c.readonly());
    assert_eq!(PropertyType::BatteryLevel, *c.property_type());
    assert_eq!(None, c.external_id());
}

fn boolean(name: &str, value: bool) -> Property {
    Property::Boolean(BooleanProperty::new(name.to_string(), false, PropertyType::On, None, value))
}

#[test]
fn a_property_map_inserts_and_looks_up_by_name() {
    let map = PropertyMap::new();
    assert_eq!(0, map.len());
    let map = map.insert("on".to_string(), boolean("on", true));
    assert_eq!(1, map.len());
    assert!(map.get("on").is_some());
    assert!(map.get("off").is_none());
}

#[test]
fn a_property_map_overwrites_on_a_name_collision() {
    let map = PropertyMap::new()
        .insert("on".to_string(), boolean("on", false))
        .insert("on".to_string(), boolean("on", true));
    assert_eq!(1, map.len());
    if let Some(Property::Boolean(p)) = map.get("on") {
        assert_eq!(true, p.value());
    } else {
        panic!("expected a Boolean property under \"on\"");
    }
}

#[test]
fn merging_prefers_the_other_map_on_collision() {
    let left = PropertyMap::new()
        .insert("on".to_string(), boolean("on", false))
        .insert("reachable".to_string(), boolean("reachable", true));
    let right = PropertyMap::new().insert("on".to_string(), boolean("on", true));
    let merged = left.merge(right);
    assert_eq!(2, merged.len());
    if let Some(Property::Boolean(p)) = merged.get("on") {
        assert_eq!(true, p.value());
    } else {
        panic!("expected a Boolean property under \"on\"");
    }
    assert!(merged.get("reachable").is_some());
}

#[test]
fn a_device_keeps_what_it_was_built_from() {
    let properties = PropertyMap::new().insert("on".to_string(), boolean("on", true));
    let device = Device::new(
        "90bdce60-3704-470e-be4c-8264f2bc8151".to_string(),
        DeviceType::Light,
        "Signify Netherlands B.V.".to_string(),
        "LWA021".to_string(),
        "Hue filament bulb".to_string(),
        "Light".to_string(),
        properties,
        None,
    );
    assert_eq!("90bdce60-3704-470e-be4c-8264f2bc8151", device.id());
    assert_eq!(DeviceType::Light, *device.device_type());
    assert_eq!("Signify Netherlands B.V.", device.manufacturer());
    assert_eq!("LWA021", device.model_id());
    assert_eq!("Hue filament bulb", device.product_name());
    assert_eq!("Light", device.name());
    assert_eq!(1, device.properties().len());
    assert_eq!(None, device.external_id());
}
