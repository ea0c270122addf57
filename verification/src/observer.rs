//! The device resolver and the observation pipeline.
//!
//! For each device resource, its declared service references are walked in
//! order: a reference of a mapped type (currently `light`) is looked up in
//! the catalog — a miss is `DanglingReference`, a kind mismatch is
//! `InvalidData` — and folded into the device's property map; a reference of
//! an unmapped type is skipped by design. A device whose property map comes
//! out empty contributes no output entity. Any error aborts the whole pass:
//! no partial device list is ever returned.

use vstd::prelude::*;

use crate::catalog::{catalog_map, Catalog};
use crate::devices_response::{
    DeviceGet, DeviceGetV, DevicesResponse, DevicesResponseV, LightGet, LightGetV, Resource,
    ResourceIdentifierGet, ResourceIdentifierV, ResourceV,
};
use crate::error::{HueObserverError, HueObserverErrorV};
use crate::event::{Event, EventV};
use crate::model::{
    BooleanProperty, BooleanPropertyV, CommonV, Device, DeviceType, DeviceV, Property,
    PropertyMap, PropertyType, PropertyV,
};
use crate::parse::{parse_response, parse_response_spec};
use crate::raw::{str_eq, RawValue};

verus! {

/// What a light service contributes: exactly one Boolean property named
/// `"on"`, not read-only, classified `On`, carrying the light's on/off
/// state. Pure and total: it never fails.
pub open spec fn light_props(l: LightGetV) -> Map<Seq<char>, PropertyV> {
    Map::empty().insert(
        "on"@,
        PropertyV::Boolean(
            BooleanPropertyV {
                common: CommonV {
                    name: "on"@,
                    readonly: false,
                    property_type: PropertyType::On,
                    external_id: None,
                },
                value: l.on.on,
            },
        ),
    )
}

/// Folds one light payload into its normalized properties.
pub fn map_lights(light: &LightGet) -> (r: PropertyMap)
    ensures
        r@ == light_props(light.deep_view()),
{
    let properties = PropertyMap::new();
    let on_property = Property::Boolean(
        BooleanProperty::new("on".to_owned(), false, PropertyType::On, None, light.on.on),
    );
    properties.insert("on".to_owned(), on_property)
}

/// One step of the fold: what one service reference adds to a device's
/// accumulating property map, or the error that aborts the device.
pub open spec fn fold_service_spec(
    props: Map<Seq<char>, PropertyV>,
    s: ResourceIdentifierV,
    cat: Map<Seq<char>, ResourceV>,
) -> Result<Map<Seq<char>, PropertyV>, HueObserverErrorV> {
    if s.rtype == "light"@ {
        if !cat.contains_key(s.rid) {
            Err(HueObserverErrorV::DanglingReference)
        } else {
            match cat[s.rid] {
                ResourceV::Light(l) => Ok(props.union_prefer_right(light_props(l))),
                _ => Err(HueObserverErrorV::InvalidData),
            }
        }
    } else {
        Ok(props)
    }
}

/// The fold over a device's service references, in order.
pub open spec fn fold_services_spec(
    props: Map<Seq<char>, PropertyV>,
    services: Seq<ResourceIdentifierV>,
    cat: Map<Seq<char>, ResourceV>,
) -> Result<Map<Seq<char>, PropertyV>, HueObserverErrorV>
    decreases services.len(),
{
    if services.len() == 0 {
        Ok(props)
    } else {
        match fold_service_spec(props, services[0], cat) {
            Ok(p2) => fold_services_spec(p2, services.skip(1), cat),
            Err(e) => Err(e),
        }
    }
}

/// Resolves one service reference and merges its properties, overwriting on
/// a name collision (last write wins).
pub fn fold_services(
    properties: PropertyMap,
    service: &ResourceIdentifierGet,
    catalog: &Catalog,
) -> (r: Result<PropertyMap, HueObserverError>)
    ensures
        match r {
            Ok(pm) => fold_service_spec(properties@, service.deep_view(), catalog@) == Ok::<
                Map<Seq<char>, PropertyV>,
                HueObserverErrorV,
            >(pm@),
            Err(e) => fold_service_spec(properties@, service.deep_view(), catalog@) == Err::<
                Map<Seq<char>, PropertyV>,
                HueObserverErrorV,
            >(e.deep_view()),
        },
{
    if str_eq(service.rtype.as_str(), "light") {
        match catalog.lookup(service.rid.as_str()) {
            None => Err(HueObserverError::DanglingReference),
            Some(res) => match res {
                Resource::Light(light) => Ok(properties.merge(map_lights(light))),
                _ => Err(HueObserverError::InvalidData),
            },
        }
    } else {
        Ok(properties)
    }
}

/// The normalized device a device resource yields, given its folded
/// properties. The external identifier is reserved for cross-system
/// correlation and left unset by this core.
pub open spec fn device_of(
    d: DeviceGetV,
    props: Map<Seq<char>, PropertyV>,
    external_id: Option<Seq<char>>,
) -> DeviceV {
    DeviceV {
        id: d.id,
        device_type: DeviceType::Light,
        manufacturer: d.product_data.manufacturer_name,
        model_id: d.product_data.model_id,
        product_name: d.product_data.product_name,
        name: d.metadata.name,
        properties: props,
        external_id,
    }
}

/// Builds the normalized device from a device resource and its properties.
pub fn map_device(device: &DeviceGet, properties: PropertyMap, external_id: Option<String>) -> (r:
    Device)
    ensures
        r.deep_view() == device_of(device.deep_view(), properties@, external_id.deep_view()),
{
    Device::new(
        device.id.clone(),
        DeviceType::Light,
        device.product_data.manufacturer_name.clone(),
        device.product_data.model_id.clone(),
        device.product_data.product_name.clone(),
        device.metadata.name.clone(),
        properties,
        external_id,
    )
}

/// What one device resource adds to the device list: nothing if its folded
/// property map is empty, else one normalized device; or the error that
/// aborts the pass.
pub open spec fn fold_device_spec(
    devices: Seq<DeviceV>,
    d: DeviceGetV,
    cat: Map<Seq<char>, ResourceV>,
) -> Result<Seq<DeviceV>, HueObserverErrorV> {
    match fold_services_spec(Map::empty(), d.services, cat) {
        Ok(props) => if props.dom().len() > 0 {
            Ok(devices.push(device_of(d, props, None)))
        } else {
            Ok(devices)
        },
        Err(e) => Err(e),
    }
}

/// Resolves one device resource and appends its normalized device, if any.
pub fn fold_device(devices: Vec<Device>, device: &DeviceGet, catalog: &Catalog) -> (r: Result<
    Vec<Device>,
    HueObserverError,
>)
    ensures
        match r {
            Ok(ds) => fold_device_spec(devices.deep_view(), device.deep_view(), catalog@) == Ok::<Seq<DeviceV>, HueObserverErrorV>(
                ds.deep_view(),
            ),
            Err(e) => fold_device_spec(devices.deep_view(), device.deep_view(), catalog@) == Err::<Seq<DeviceV>, HueObserverErrorV>(
                e.deep_view(),
            ),
        },
{
    let ghost services_v = device.services.deep_view();
    let mut properties = PropertyMap::new();
    let mut i: usize = 0;
    proof {
        assert(services_v.skip(0) =~= services_v);
    }
    while i < device.services.len()
        invariant
            i <= device.services.len(),
            services_v == device.services.deep_view(),
            fold_services_spec(Map::empty(), services_v, catalog@) == fold_services_spec(
                properties@,
                services_v.skip(i as int),
                catalog@,
            ),
        decreases device.services.len() - i,
    {
        proof {
            assert(services_v.skip(i as int)[0] == device.services@[i as int].deep_view());
            assert(services_v.skip(i as int).skip(1) =~= services_v.skip(i + 1));
        }
        properties = match fold_services(properties, &device.services[i], catalog) {
            Ok(pm) => pm,
            Err(e) => {
                return Err(e);
            },
        };
        i = i + 1;
    }
    proof {
        assert(services_v.skip(services_v.len() as int) =~= Seq::<ResourceIdentifierV>::empty());
    }
    let mut devices = devices;
    if properties.len() > 0 {
        let ghost before = devices.deep_view();
        let normalized = map_device(device, properties, None);
        devices.push(normalized);
        proof {
            assert(devices.deep_view() =~= before.push(normalized.deep_view()));
        }
    }
    Ok(devices)
}

/// The resolution pass over a snapshot's resource collection: every
/// device-typed resource is resolved in order; the first error aborts the
/// pass. Resources of other kinds, `Unknown` included, are not candidates.
pub open spec fn resolve_resources_spec(
    devices: Seq<DeviceV>,
    data: Seq<ResourceV>,
    cat: Map<Seq<char>, ResourceV>,
) -> Result<Seq<DeviceV>, HueObserverErrorV>
    decreases data.len(),
{
    if data.len() == 0 {
        Ok(devices)
    } else {
        match data[0] {
            ResourceV::Device(d) => match fold_device_spec(devices, d, cat) {
                Ok(ds) => resolve_resources_spec(ds, data.skip(1), cat),
                Err(e) => Err(e),
            },
            _ => resolve_resources_spec(devices, data.skip(1), cat),
        }
    }
}

/// Resolves every device resource of a snapshot against its catalog.
pub fn resolve_devices(data: &Vec<Resource>, catalog: &Catalog) -> (r: Result<
    Vec<Device>,
    HueObserverError,
>)
    ensures
        match r {
            Ok(ds) => resolve_resources_spec(Seq::empty(), data.deep_view(), catalog@) == Ok::<Seq<DeviceV>, HueObserverErrorV>(
                ds.deep_view(),
            ),
            Err(e) => resolve_resources_spec(Seq::empty(), data.deep_view(), catalog@) == Err::<Seq<DeviceV>, HueObserverErrorV>(
                e.deep_view(),
            ),
        },
{
    let ghost dv = data.deep_view();
    let mut devices: Vec<Device> = Vec::new();
    let mut i: usize = 0;
    proof {
        assert(dv.skip(0) =~= dv);
        assert(devices.deep_view() =~= Seq::<DeviceV>::empty());
    }
    while i < data.len()
        invariant
            i <= data.len(),
            dv == data.deep_view(),
            resolve_resources_spec(Seq::empty(), dv, catalog@) == resolve_resources_spec(
                devices.deep_view(),
                dv.skip(i as int),
                catalog@,
            ),
        decreases data.len() - i,
    {
        proof {
            assert(dv.skip(i as int)[0] == data@[i as int].deep_view());
            assert(dv.skip(i as int).skip(1) =~= dv.skip(i + 1));
        }
        match &data[i] {
            Resource::Device(d) => {
                devices = match fold_device(devices, d, catalog) {
                    Ok(ds) => ds,
                    Err(e) => {
                        return Err(e);
                    },
                };
            },
            _ => {},
        }
        i = i + 1;
    }
    proof {
        assert(dv.skip(dv.len() as int) =~= Seq::<ResourceV>::empty());
    }
    Ok(devices)
}

/// The whole pass over a parsed response: the bridge's own error signal
/// takes precedence — a non-empty error list abandons the pass, the data
/// discarded even if usable — else the catalog is built and every device
/// resolved.
pub open spec fn resolve_response_spec(resp: DevicesResponseV) -> Result<
    Seq<DeviceV>,
    HueObserverErrorV,
> {
    if resp.errors.len() > 0 {
        Err(HueObserverErrorV::BridgeReportedErrors(resp.errors))
    } else {
        resolve_resources_spec(Seq::empty(), resp.data, catalog_map(resp.data))
    }
}

/// Validates and resolves one parsed snapshot.
pub fn resolve_response(response: DevicesResponse) -> (r: Result<Event, HueObserverError>)
    ensures
        match r {
            Ok(ev) => ev.deep_view() matches EventV::DiscoveredDevices(ds)
                && resolve_response_spec(response.deep_view()) == Ok::<Seq<DeviceV>, HueObserverErrorV>(ds),
            Err(e) => resolve_response_spec(response.deep_view()) == Err::<Seq<DeviceV>, HueObserverErrorV>(e.deep_view()),
        },
{
    let DevicesResponse { errors, data } = response;
    if errors.len() > 0 {
        return Err(HueObserverError::BridgeReportedErrors(errors));
    }
    let catalog = Catalog::build(&data);
    match resolve_devices(&data, &catalog) {
        Ok(devices) => Ok(Event::DiscoveredDevices(devices)),
        Err(e) => Err(e),
    }
}

/// The full pipeline from one snapshot of raw structured data: parse, then
/// validate, then resolve.
pub open spec fn observe_spec(v: RawValue) -> Result<Seq<DeviceV>, HueObserverErrorV> {
    match parse_response_spec(v) {
        Some(resp) => resolve_response_spec(resp),
        None => Err(HueObserverErrorV::MalformedResource),
    }
}

// ---------------------------------------------------------------------------
// Laws of the resolver, stated and proved once and for all inputs.
// ---------------------------------------------------------------------------

/// A resolution pass over a collection containing no device-typed resource
/// leaves the device list exactly as it was — in particular, starting from
/// the empty list it yields the empty list, not an error.
pub proof fn lemma_resolution_without_devices(
    devices: Seq<DeviceV>,
    data: Seq<ResourceV>,
    cat: Map<Seq<char>, ResourceV>,
)
    requires
        forall|i: int| 0 <= i < data.len() ==> !(data[i] is Device),
    ensures
        resolve_resources_spec(devices, data, cat) == Ok::<Seq<DeviceV>, HueObserverErrorV>(
            devices,
        ),
    decreases data.len(),
{
    if data.len() > 0 {
        assert(!(data[0] is Device));
        lemma_resolution_without_devices(devices, data.skip(1), cat);
    }
}

/// A snapshot without bridge errors and without device-typed resources
/// resolves to an empty device list, not an error.
pub proof fn lemma_empty_snapshot_resolves_empty(resp: DevicesResponseV)
    requires
        resp.errors.len() == 0,
        forall|i: int| 0 <= i < resp.data.len() ==> !(resp.data[i] is Device),
    ensures
        resolve_response_spec(resp) == Ok::<Seq<DeviceV>, HueObserverErrorV>(
            Seq::<DeviceV>::empty(),
        ),
{
    lemma_resolution_without_devices(Seq::empty(), resp.data, catalog_map(resp.data));
}

/// Folding only references of unmapped types changes nothing: each one is
/// skipped by design, not an error.
proof fn lemma_fold_unmapped_services(
    props: Map<Seq<char>, PropertyV>,
    services: Seq<ResourceIdentifierV>,
    cat: Map<Seq<char>, ResourceV>,
)
    requires
        forall|i: int| 0 <= i < services.len() ==> services[i].rtype != "light"@,
    ensures
        fold_services_spec(props, services, cat) == Ok::<
            Map<Seq<char>, PropertyV>,
            HueObserverErrorV,
        >(props),
    decreases services.len(),
{
    if services.len() > 0 {
        assert(services[0].rtype != "light"@);
        lemma_fold_unmapped_services(props, services.skip(1), cat);
    }
}

/// A device whose services are all of unmapped types yields no normalized
/// device: its property map comes out empty and the device is filtered,
/// not reported as an error.
pub proof fn lemma_unmapped_device_filtered(
    devices: Seq<DeviceV>,
    d: DeviceGetV,
    cat: Map<Seq<char>, ResourceV>,
)
    requires
        forall|i: int| 0 <= i < d.services.len() ==> d.services[i].rtype != "light"@,
    ensures
        fold_device_spec(devices, d, cat) == Ok::<Seq<DeviceV>, HueObserverErrorV>(devices),
{
    broadcast use vstd::set::axiom_set_empty_len;

    lemma_fold_unmapped_services(Map::empty(), d.services, cat);
    assert(Map::<Seq<char>, PropertyV>::empty().dom() =~= Set::<Seq<char>>::empty());
}

/// The light round trip: a light whose on state is `b` maps to exactly one
/// property, a Boolean named `"on"`, not read-only, classified `On`, with
/// value `b`.
pub proof fn lemma_light_on_round_trip(l: LightGetV)
    ensures
        light_props(l).dom() =~= set!["on"@],
        light_props(l)["on"@] == PropertyV::Boolean(
            BooleanPropertyV {
                common: CommonV {
                    name: "on"@,
                    readonly: false,
                    property_type: PropertyType::On,
                    external_id: None,
                },
                value: l.on.on,
            },
        ),
{
    assert(light_props(l).dom() =~= set!["on"@]);
}

/// The bridge's own error signal takes precedence: a snapshot whose error
/// list is non-empty fails with exactly those errors, whatever the data
/// holds — even fully resolvable data.
pub proof fn lemma_bridge_errors_take_precedence(resp: DevicesResponseV)
    requires
        resp.errors.len() > 0,
    ensures
        resolve_response_spec(resp) == Err::<Seq<DeviceV>, HueObserverErrorV>(
            HueObserverErrorV::BridgeReportedErrors(resp.errors),
        ),
{
}

/// A light-typed service reference whose id is absent from the catalog
/// folds to `DanglingReference`, never to properties.
pub proof fn lemma_dangling_reference(
    props: Map<Seq<char>, PropertyV>,
    s: ResourceIdentifierV,
    cat: Map<Seq<char>, ResourceV>,
)
    requires
        s.rtype == "light"@,
        !cat.contains_key(s.rid),
    ensures
        fold_service_spec(props, s, cat) == Err::<Map<Seq<char>, PropertyV>, HueObserverErrorV>(
            HueObserverErrorV::DanglingReference,
        ),
{
}

/// The fold over a device's services aborts once any light-typed reference
/// dangles: whatever came before, the result is an error, never a partial
/// property map.
proof fn lemma_fold_services_dangling(
    props: Map<Seq<char>, PropertyV>,
    services: Seq<ResourceIdentifierV>,
    cat: Map<Seq<char>, ResourceV>,
    i: int,
)
    requires
        0 <= i < services.len(),
        services[i].rtype == "light"@,
        !cat.contains_key(services[i].rid),
    ensures
        fold_services_spec(props, services, cat) is Err,
    decreases services.len(),
{
    if i == 0 {
    } else {
        match fold_service_spec(props, services[0], cat) {
            Ok(p2) => {
                assert(services.skip(1)[i - 1] == services[i]);
                lemma_fold_services_dangling(p2, services.skip(1), cat, i - 1);
            },
            Err(e) => {},
        }
    }
}

/// A device one of whose light-typed references dangles yields no device at
/// all: its whole resolution aborts with an error, so the pass emits no
/// partial output for it.
pub proof fn lemma_dangling_aborts_device(
    devices: Seq<DeviceV>,
    d: DeviceGetV,
    cat: Map<Seq<char>, ResourceV>,
    i: int,
)
    requires
        0 <= i < d.services.len(),
        d.services[i].rtype == "light"@,
        !cat.contains_key(d.services[i].rid),
    ensures
        fold_device_spec(devices, d, cat) is Err,
{
    lemma_fold_services_dangling(Map::empty(), d.services, cat, i);
}

/// Parses and resolves one fetched snapshot.
pub fn observe_snapshot(raw: &RawValue) -> (r: Result<Event, HueObserverError>)
    ensures
        match r {
            Ok(ev) => ev.deep_view() matches EventV::DiscoveredDevices(ds) && observe_spec(*raw)
                == Ok::<Seq<DeviceV>, HueObserverErrorV>(ds),
            Err(e) => observe_spec(*raw) == Err::<Seq<DeviceV>, HueObserverErrorV>(e.deep_view()),
        },
{
    match parse_response(raw) {
        Ok(resp) => resolve_response(resp),
        Err(e) => Err(e),
    }
}

} // verus!
