//! The resource-schema parser: from raw structured data to `Resource`
//! values.
//!
//! The contract, stated by the `..._spec` functions and carried by every
//! executable parser here: a known `type` tag demands a conforming payload
//! (anything else is `MalformedResource`), while an unrecognized tag parses
//! successfully to `Resource::Unknown`. The same fallback rule applies to
//! the nested `Archetype` and `ButtonEvent` enumerations.

use vstd::prelude::*;

use crate::devices_response::{
    Alert, AlertV, Archetype, Button, ButtonEvent, ButtonGet, ButtonGetV, ButtonMetadata,
    ButtonReport, ButtonV, Color, ColorTemperature, DeviceGet, DeviceGetV, DeviceMetadata,
    DeviceMetadataV, DevicesResponse, DevicesResponseV, Dimming, Dynamics, DynamicsV, Gamut,
    HueError, HueErrorV, LightGet, LightGetV, MirekSchema, On, ProductData, ProductDataV,
    Resource, ResourceIdentifierGet, ResourceIdentifierV, ResourceV, Xy,
};
use crate::error::HueObserverError;
use crate::raw::{lookup_field, obj_get, str_eq, RawField, RawNumber, RawValue};

verus! {

// ---------------------------------------------------------------------------
// Field extraction: one pair of functions per field shape. The spec function
// says which raw shapes conform; the executable one returns
// `MalformedResource` exactly on the shapes the spec function rejects.
// ---------------------------------------------------------------------------

/// A required string field.
pub open spec fn field_str(fields: Seq<RawField>, key: Seq<char>) -> Option<Seq<char>> {
    match lookup_field(fields, key) {
        Some(RawValue::Str(s)) => Some(s@),
        _ => None,
    }
}

fn get_str(fields: &Vec<RawField>, key: &str) -> (r: Result<String, HueObserverError>)
    ensures
        match r {
            Ok(s) => field_str(fields@, key@) == Some(s@),
            Err(e) => field_str(fields@, key@) is None && e is MalformedResource,
        },
{
    match obj_get(fields, key) {
        Some(RawValue::Str(s)) => Ok(s.clone()),
        _ => Err(HueObserverError::MalformedResource),
    }
}

/// A required boolean field.
pub open spec fn field_bool(fields: Seq<RawField>, key: Seq<char>) -> Option<bool> {
    match lookup_field(fields, key) {
        Some(RawValue::Bool(b)) => Some(b),
        _ => None,
    }
}

fn get_bool(fields: &Vec<RawField>, key: &str) -> (r: Result<bool, HueObserverError>)
    ensures
        match r {
            Ok(b) => field_bool(fields@, key@) == Some(b),
            Err(e) => field_bool(fields@, key@) is None && e is MalformedResource,
        },
{
    match obj_get(fields, key) {
        Some(RawValue::Bool(b)) => Ok(*b),
        _ => Err(HueObserverError::MalformedResource),
    }
}

/// A required non-negative integer field that must fit the platform's
/// `usize`.
pub open spec fn field_usize(fields: Seq<RawField>, key: Seq<char>) -> Option<usize> {
    match lookup_field(fields, key) {
        Some(RawValue::Num(RawNumber::Uint(u))) => if u <= usize::MAX as u64 {
            Some(u as usize)
        } else {
            None
        },
        _ => None,
    }
}

fn get_usize(fields: &Vec<RawField>, key: &str) -> (r: Result<usize, HueObserverError>)
    ensures
        match r {
            Ok(u) => field_usize(fields@, key@) == Some(u),
            Err(e) => field_usize(fields@, key@) is None && e is MalformedResource,
        },
{
    match obj_get(fields, key) {
        Some(RawValue::Num(RawNumber::Uint(u))) => if *u <= usize::MAX as u64 {
            Ok(*u as usize)
        } else {
            Err(HueObserverError::MalformedResource)
        },
        _ => Err(HueObserverError::MalformedResource),
    }
}

/// An optional non-negative integer field: absent or null means "not there",
/// any other non-conforming shape is malformed.
pub open spec fn field_opt_usize(fields: Seq<RawField>, key: Seq<char>) -> Option<Option<usize>> {
    match lookup_field(fields, key) {
        None => Some(None),
        Some(RawValue::Null) => Some(None),
        Some(RawValue::Num(RawNumber::Uint(u))) => if u <= usize::MAX as u64 {
            Some(Some(u as usize))
        } else {
            None
        },
        _ => None,
    }
}

fn get_opt_usize(fields: &Vec<RawField>, key: &str) -> (r: Result<
    Option<usize>,
    HueObserverError,
>)
    ensures
        match r {
            Ok(u) => field_opt_usize(fields@, key@) == Some(u),
            Err(e) => field_opt_usize(fields@, key@) is None && e is MalformedResource,
        },
{
    match obj_get(fields, key) {
        None => Ok(None),
        Some(RawValue::Null) => Ok(None),
        Some(RawValue::Num(RawNumber::Uint(u))) => if *u <= usize::MAX as u64 {
            Ok(Some(*u as usize))
        } else {
            Err(HueObserverError::MalformedResource)
        },
        _ => Err(HueObserverError::MalformedResource),
    }
}

/// A required small-integer field (fits in a byte).
pub open spec fn field_u8(fields: Seq<RawField>, key: Seq<char>) -> Option<u8> {
    match lookup_field(fields, key) {
        Some(RawValue::Num(RawNumber::Uint(u))) => if u <= u8::MAX as u64 {
            Some(u as u8)
        } else {
            None
        },
        _ => None,
    }
}

fn get_u8(fields: &Vec<RawField>, key: &str) -> (r: Result<u8, HueObserverError>)
    ensures
        match r {
            Ok(u) => field_u8(fields@, key@) == Some(u),
            Err(e) => field_u8(fields@, key@) is None && e is MalformedResource,
        },
{
    match obj_get(fields, key) {
        Some(RawValue::Num(RawNumber::Uint(u))) => if *u <= u8::MAX as u64 {
            Ok(*u as u8)
        } else {
            Err(HueObserverError::MalformedResource)
        },
        _ => Err(HueObserverError::MalformedResource),
    }
}

/// A required numeric field, kept as the raw literal.
pub open spec fn field_num(fields: Seq<RawField>, key: Seq<char>) -> Option<RawNumber> {
    match lookup_field(fields, key) {
        Some(RawValue::Num(n)) => Some(n),
        _ => None,
    }
}

fn get_num(fields: &Vec<RawField>, key: &str) -> (r: Result<RawNumber, HueObserverError>)
    ensures
        match r {
            Ok(n) => field_num(fields@, key@) == Some(n),
            Err(e) => field_num(fields@, key@) is None && e is MalformedResource,
        },
{
    match obj_get(fields, key) {
        Some(RawValue::Num(n)) => Ok(*n),
        _ => Err(HueObserverError::MalformedResource),
    }
}

/// An optional numeric field.
pub open spec fn field_opt_num(fields: Seq<RawField>, key: Seq<char>) -> Option<
    Option<RawNumber>,
> {
    match lookup_field(fields, key) {
        None => Some(None),
        Some(RawValue::Null) => Some(None),
        Some(RawValue::Num(n)) => Some(Some(n)),
        _ => None,
    }
}

fn get_opt_num(fields: &Vec<RawField>, key: &str) -> (r: Result<
    Option<RawNumber>,
    HueObserverError,
>)
    ensures
        match r {
            Ok(n) => field_opt_num(fields@, key@) == Some(n),
            Err(e) => field_opt_num(fields@, key@) is None && e is MalformedResource,
        },
{
    match obj_get(fields, key) {
        None => Ok(None),
        Some(RawValue::Null) => Ok(None),
        Some(RawValue::Num(n)) => Ok(Some(*n)),
        _ => Err(HueObserverError::MalformedResource),
    }
}

/// A required single-character string field.
pub open spec fn field_char(fields: Seq<RawField>, key: Seq<char>) -> Option<char> {
    match lookup_field(fields, key) {
        Some(RawValue::Str(s)) => if s@.len() == 1 {
            Some(s@[0])
        } else {
            None
        },
        _ => None,
    }
}

fn get_char_field(fields: &Vec<RawField>, key: &str) -> (r: Result<char, HueObserverError>)
    ensures
        match r {
            Ok(c) => field_char(fields@, key@) == Some(c),
            Err(e) => field_char(fields@, key@) is None && e is MalformedResource,
        },
{
    match obj_get(fields, key) {
        Some(RawValue::Str(s)) => {
            let st = s.as_str();
            if st.unicode_len() == 1 {
                Ok(st.get_char(0))
            } else {
                Err(HueObserverError::MalformedResource)
            }
        },
        _ => Err(HueObserverError::MalformedResource),
    }
}

// ---------------------------------------------------------------------------
// Enumerations parsed from strings, with the forward-compatibility fallback.
// ---------------------------------------------------------------------------

/// The archetype a name denotes; any unrecognized name maps to the fallback.
pub open spec fn archetype_of(s: Seq<char>) -> Archetype {
    if s == "bollard"@ {
        Archetype::Bollard
    } else if s == "bridge_v2"@ {
        Archetype::BridgeV2
    } else if s == "candle_bulb"@ {
        Archetype::CandleBulb
    } else if s == "ceiling_round"@ {
        Archetype::CeilingRound
    } else if s == "ceiling_square"@ {
        Archetype::CeilingSquare
    } else if s == "christmas_tree"@ {
        Archetype::ChristmasTree
    } else if s == "classic_bulb"@ {
        Archetype::ClassicBulb
    } else if s == "double_spot"@ {
        Archetype::DoubleSpot
    } else if s == "flexiable_lamp"@ {
        Archetype::FlexiableLamp
    } else if s == "flood_bulb"@ {
        Archetype::FloodBulb
    } else if s == "floor_lantern"@ {
        Archetype::FloorLantern
    } else if s == "floor_shade"@ {
        Archetype::FloorShade
    } else if s == "ground_spot"@ {
        Archetype::GroundSpot
    } else if s == "hue_bloom"@ {
        Archetype::HueBloom
    } else if s == "hue_centris"@ {
        Archetype::HueCentris
    } else if s == "hue_go"@ {
        Archetype::HueGo
    } else if s == "hue_iris"@ {
        Archetype::HueIris
    } else if s == "hue_lightstrip"@ {
        Archetype::HueLightstrip
    } else if s == "hue_lightstrip_tv"@ {
        Archetype::HueLightstripTv
    } else if s == "hue_play"@ {
        Archetype::HuePlay
    } else if s == "hue_signe"@ {
        Archetype::HueSigne
    } else if s == "hue_tube"@ {
        Archetype::HueTube
    } else if s == "luster_bulb"@ {
        Archetype::LusterBulb
    } else if s == "pendant_long"@ {
        Archetype::PendantLong
    } else if s == "pendant_round"@ {
        Archetype::PendantRound
    } else if s == "plug"@ {
        Archetype::Plug
    } else if s == "recessed_ceiling"@ {
        Archetype::RecessedCeiling
    } else if s == "recessed_floor"@ {
        Archetype::RecessedFloor
    } else if s == "single_spot"@ {
        Archetype::SingleSpot
    } else if s == "spot_bulb"@ {
        Archetype::SpotBulb
    } else if s == "sultan_bulb"@ {
        Archetype::SultanBulb
    } else if s == "table_shade"@ {
        Archetype::TableShade
    } else if s == "table_wash"@ {
        Archetype::TableWash
    } else if s == "unknown_archetype"@ {
        Archetype::UnknownArchetype
    } else if s == "vintage_bulb"@ {
        Archetype::VintageBulb
    } else if s == "wall_lantern"@ {
        Archetype::WallLantern
    } else if s == "wall_shade"@ {
        Archetype::WallShade
    } else if s == "wall_spot"@ {
        Archetype::WallSpot
    } else if s == "wall_washer"@ {
        Archetype::WallWasher
    } else {
        Archetype::UnrecognizedArchetype
    }
}

#[verifier::rlimit(30)]
pub fn archetype_from(s: &str) -> (r: Archetype)
    ensures
        r == archetype_of(s@),
{
    if str_eq(s, "bollard") {
        Archetype::Bollard
    } else if str_eq(s, "bridge_v2") {
        Archetype::BridgeV2
    } else if str_eq(s, "candle_bulb") {
        Archetype::CandleBulb
    } else if str_eq(s, "ceiling_round") {
        Archetype::CeilingRound
    } else if str_eq(s, "ceiling_square") {
        Archetype::CeilingSquare
    } else if str_eq(s, "christmas_tree") {
        Archetype::ChristmasTree
    } else if str_eq(s, "classic_bulb") {
        Archetype::ClassicBulb
    } else if str_eq(s, "double_spot") {
        Archetype::DoubleSpot
    } else if str_eq(s, "flexiable_lamp") {
        Archetype::FlexiableLamp
    } else if str_eq(s, "flood_bulb") {
        Archetype::FloodBulb
    } else if str_eq(s, "floor_lantern") {
        Archetype::FloorLantern
    } else if str_eq(s, "floor_shade") {
        Archetype::FloorShade
    } else if str_eq(s, "ground_spot") {
        Archetype::GroundSpot
    } else if str_eq(s, "hue_bloom") {
        Archetype::HueBloom
    } else if str_eq(s, "hue_centris") {
        Archetype::HueCentris
    } else if str_eq(s, "hue_go") {
        Archetype::HueGo
    } else if str_eq(s, "hue_iris") {
        Archetype::HueIris
    } else if str_eq(s, "hue_lightstrip") {
        Archetype::HueLightstrip
    } else if str_eq(s, "hue_lightstrip_tv") {
        Archetype::HueLightstripTv
    } else if str_eq(s, "hue_play") {
        Archetype::HuePlay
    } else if str_eq(s, "hue_signe") {
        Archetype::HueSigne
    } else if str_eq(s, "hue_tube") {
        Archetype::HueTube
    } else if str_eq(s, "luster_bulb") {
        Archetype::LusterBulb
    } else if str_eq(s, "pendant_long") {
        Archetype::PendantLong
    } else if str_eq(s, "pendant_round") {
        Archetype::PendantRound
    } else if str_eq(s, "plug") {
        Archetype::Plug
    } else if str_eq(s, "recessed_ceiling") {
        Archetype::RecessedCeiling
    } else if str_eq(s, "recessed_floor") {
        Archetype::RecessedFloor
    } else if str_eq(s, "single_spot") {
        Archetype::SingleSpot
    } else if str_eq(s, "spot_bulb") {
        Archetype::SpotBulb
    } else if str_eq(s, "sultan_bulb") {
        Archetype::SultanBulb
    } else if str_eq(s, "table_shade") {
        Archetype::TableShade
    } else if str_eq(s, "table_wash") {
        Archetype::TableWash
    } else if str_eq(s, "unknown_archetype") {
        Archetype::UnknownArchetype
    } else if str_eq(s, "vintage_bulb") {
        Archetype::VintageBulb
    } else if str_eq(s, "wall_lantern") {
        Archetype::WallLantern
    } else if str_eq(s, "wall_shade") {
        Archetype::WallShade
    } else if str_eq(s, "wall_spot") {
        Archetype::WallSpot
    } else if str_eq(s, "wall_washer") {
        Archetype::WallWasher
    } else {
        Archetype::UnrecognizedArchetype
    }
}

/// The event kind a name denotes; any unrecognized name maps to the
/// fallback.
pub open spec fn button_event_of(s: Seq<char>) -> ButtonEvent {
    if s == "initial_press"@ {
        ButtonEvent::InitialPress
    } else if s == "repeat"@ {
        ButtonEvent::Repeat
    } else if s == "short_release"@ {
        ButtonEvent::ShortRelease
    } else if s == "long_release"@ {
        ButtonEvent::LongRelease
    } else if s == "double_short_release"@ {
        ButtonEvent::DoubleShortRelease
    } else if s == "long_press"@ {
        ButtonEvent::LongPress
    } else {
        ButtonEvent::UnrecognizedEvent
    }
}

pub fn button_event_from(s: &str) -> (r: ButtonEvent)
    ensures
        r == button_event_of(s@),
{
    if str_eq(s, "initial_press") {
        ButtonEvent::InitialPress
    } else if str_eq(s, "repeat") {
        ButtonEvent::Repeat
    } else if str_eq(s, "short_release") {
        ButtonEvent::ShortRelease
    } else if str_eq(s, "long_release") {
        ButtonEvent::LongRelease
    } else if str_eq(s, "double_short_release") {
        ButtonEvent::DoubleShortRelease
    } else if str_eq(s, "long_press") {
        ButtonEvent::LongPress
    } else {
        ButtonEvent::UnrecognizedEvent
    }
}

// ---------------------------------------------------------------------------
// Service references and the device payload.
// ---------------------------------------------------------------------------

/// A service reference: an object with `rid` and `rtype` strings.
pub open spec fn parse_rig_spec(v: RawValue) -> Option<ResourceIdentifierV> {
    match v {
        RawValue::Obj(fs) => match (field_str(fs@, "rid"@), field_str(fs@, "rtype"@)) {
            (Some(rid), Some(rtype)) => Some(ResourceIdentifierV { rid, rtype }),
            _ => None,
        },
        _ => None,
    }
}

fn parse_rig(v: &RawValue) -> (r: Result<ResourceIdentifierGet, HueObserverError>)
    ensures
        match r {
            Ok(rig) => parse_rig_spec(*v) == Some(rig.deep_view()),
            Err(e) => parse_rig_spec(*v) is None && e is MalformedResource,
        },
{
    let fields = match v {
        RawValue::Obj(fs) => fs,
        _ => {
            return Err(HueObserverError::MalformedResource);
        },
    };
    let rid = match get_str(fields, "rid") {
        Ok(s) => s,
        Err(e) => {
            return Err(e);
        },
    };
    let rtype = match get_str(fields, "rtype") {
        Ok(s) => s,
        Err(e) => {
            return Err(e);
        },
    };
    Ok(ResourceIdentifierGet { rid, rtype })
}

/// An ordered list of service references.
pub open spec fn parse_rigs_spec(vs: Seq<RawValue>) -> Option<Seq<ResourceIdentifierV>>
    decreases vs.len(),
{
    if vs.len() == 0 {
        Some(Seq::empty())
    } else {
        match parse_rig_spec(vs[0]) {
            Some(rig) => match parse_rigs_spec(vs.skip(1)) {
                Some(rest) => Some(seq![rig] + rest),
                None => None,
            },
            None => None,
        }
    }
}

fn parse_rigs(vs: &Vec<RawValue>) -> (r: Result<Vec<ResourceIdentifierGet>, HueObserverError>)
    ensures
        match r {
            Ok(rigs) => parse_rigs_spec(vs@) == Some(rigs.deep_view()),
            Err(e) => parse_rigs_spec(vs@) is None && e is MalformedResource,
        },
{
    let mut out: Vec<ResourceIdentifierGet> = Vec::new();
    let mut i: usize = 0;
    proof {
        assert(vs@.skip(0) =~= vs@);
    }
    while i < vs.len()
        invariant
            i <= vs.len(),
            forall|rest: Seq<ResourceIdentifierV>|
                parse_rigs_spec(vs@.skip(i as int)) == Some(rest) ==> parse_rigs_spec(vs@)
                    == Some(out.deep_view() + rest),
            parse_rigs_spec(vs@.skip(i as int)) is None ==> parse_rigs_spec(vs@) is None,
        decreases vs.len() - i,
    {
        let ghost prev = out.deep_view();
        let ghost tail = vs@.skip(i as int);
        match parse_rig(&vs[i]) {
            Ok(rig) => {
                out.push(rig);
                proof {
                    assert(tail[0] == vs@[i as int]);
                    assert(tail.skip(1) =~= vs@.skip(i + 1));
                    let rigv = vs@[i as int];
                    assert forall|rest: Seq<ResourceIdentifierV>|
                        parse_rigs_spec(vs@.skip(i + 1)) == Some(rest) implies parse_rigs_spec(
                        vs@,
                    ) == Some(out.deep_view() + rest) by {
                        assert(parse_rigs_spec(tail) == Some(
                            seq![parse_rig_spec(tail[0]).unwrap()] + rest,
                        ));
                        assert(out.deep_view() =~= prev.push(parse_rig_spec(tail[0]).unwrap()));
                        assert(prev + (seq![parse_rig_spec(tail[0]).unwrap()] + rest)
                            =~= out.deep_view() + rest);
                    }
                }
            },
            Err(e) => {
                proof {
                    assert(tail[0] == vs@[i as int]);
                }
                return Err(e);
            },
        }
        i = i + 1;
    }
    proof {
        assert(vs@.skip(vs@.len() as int) =~= Seq::<RawValue>::empty());
        assert(out.deep_view() + Seq::<ResourceIdentifierV>::empty() =~= out.deep_view());
    }
    Ok(out)
}

/// Device display metadata: a required archetype name and display name.
pub open spec fn parse_metadata_spec(v: RawValue) -> Option<DeviceMetadataV> {
    match v {
        RawValue::Obj(fs) => match (field_str(fs@, "archetype"@), field_str(fs@, "name"@)) {
            (Some(a), Some(name)) => Some(
                DeviceMetadataV { archetype: archetype_of(a), name },
            ),
            _ => None,
        },
        _ => None,
    }
}

fn parse_metadata(v: &RawValue) -> (r: Result<DeviceMetadata, HueObserverError>)
    ensures
        match r {
            Ok(m) => parse_metadata_spec(*v) == Some(m.deep_view()),
            Err(e) => parse_metadata_spec(*v) is None && e is MalformedResource,
        },
{
    let fields = match v {
        RawValue::Obj(fs) => fs,
        _ => {
            return Err(HueObserverError::MalformedResource);
        },
    };
    let archetype_name = match get_str(fields, "archetype") {
        Ok(s) => s,
        Err(e) => {
            return Err(e);
        },
    };
    let name = match get_str(fields, "name") {
        Ok(s) => s,
        Err(e) => {
            return Err(e);
        },
    };
    Ok(DeviceMetadata { archetype: archetype_from(archetype_name.as_str()), name })
}

/// Device manufacturing data: five strings, one archetype, one flag.
pub open spec fn parse_product_data_spec(v: RawValue) -> Option<ProductDataV> {
    match v {
        RawValue::Obj(fs) => match (
            field_str(fs@, "model_id"@),
            field_str(fs@, "manufacturer_name"@),
            field_str(fs@, "product_name"@),
            field_str(fs@, "product_archetype"@),
            field_bool(fs@, "certified"@),
            field_str(fs@, "software_version"@),
        ) {
            (Some(model_id), Some(manufacturer_name), Some(product_name), Some(pa), Some(
                certified,
            ), Some(software_version)) => Some(
                ProductDataV {
                    model_id,
                    manufacturer_name,
                    product_name,
                    product_archetype: archetype_of(pa),
                    certified,
                    software_version,
                },
            ),
            _ => None,
        },
        _ => None,
    }
}

fn parse_product_data(v: &RawValue) -> (r: Result<ProductData, HueObserverError>)
    ensures
        match r {
            Ok(p) => parse_product_data_spec(*v) == Some(p.deep_view()),
            Err(e) => parse_product_data_spec(*v) is None && e is MalformedResource,
        },
{
    let fields = match v {
        RawValue::Obj(fs) => fs,
        _ => {
            return Err(HueObserverError::MalformedResource);
        },
    };
    let model_id = match get_str(fields, "model_id") {
        Ok(s) => s,
        Err(e) => {
            return Err(e);
        },
    };
    let manufacturer_name = match get_str(fields, "manufacturer_name") {
        Ok(s) => s,
        Err(e) => {
            return Err(e);
        },
    };
    let product_name = match get_str(fields, "product_name") {
        Ok(s) => s,
        Err(e) => {
            return Err(e);
        },
    };
    let product_archetype_name = match get_str(fields, "product_archetype") {
        Ok(s) => s,
        Err(e) => {
            return Err(e);
        },
    };
    let certified = match get_bool(fields, "certified") {
        Ok(b) => b,
        Err(e) => {
            return Err(e);
        },
    };
    let software_version = match get_str(fields, "software_version") {
        Ok(s) => s,
        Err(e) => {
            return Err(e);
        },
    };
    Ok(
        ProductData {
            model_id,
            manufacturer_name,
            product_name,
            product_archetype: archetype_from(product_archetype_name.as_str()),
            certified,
            software_version,
        },
    )
}

/// A device payload: id, metadata, product data and the ordered service
/// references.
pub open spec fn parse_device_spec(fields: Seq<RawField>) -> Option<DeviceGetV> {
    match (
        field_str(fields, "id"@),
        lookup_field(fields, "metadata"@),
        lookup_field(fields, "product_data"@),
        lookup_field(fields, "services"@),
    ) {
        (Some(id), Some(mv), Some(pv), Some(RawValue::Arr(sv))) => match (
            parse_metadata_spec(mv),
            parse_product_data_spec(pv),
            parse_rigs_spec(sv@),
        ) {
            (Some(metadata), Some(product_data), Some(services)) => Some(
                DeviceGetV { id, metadata, product_data, services },
            ),
            _ => None,
        },
        _ => None,
    }
}

pub fn parse_device(fields: &Vec<RawField>) -> (r: Result<DeviceGet, HueObserverError>)
    ensures
        match r {
            Ok(d) => parse_device_spec(fields@) == Some(d.deep_view()),
            Err(e) => parse_device_spec(fields@) is None && e is MalformedResource,
        },
{
    let id = match get_str(fields, "id") {
        Ok(s) => s,
        Err(e) => {
            return Err(e);
        },
    };
    let metadata = match obj_get(fields, "metadata") {
        Some(mv) => match parse_metadata(mv) {
            Ok(m) => m,
            Err(e) => {
                return Err(e);
            },
        },
        None => {
            return Err(HueObserverError::MalformedResource);
        },
    };
    let product_data = match obj_get(fields, "product_data") {
        Some(pv) => match parse_product_data(pv) {
            Ok(p) => p,
            Err(e) => {
                return Err(e);
            },
        },
        None => {
            return Err(HueObserverError::MalformedResource);
        },
    };
    let services = match obj_get(fields, "services") {
        Some(RawValue::Arr(sv)) => match parse_rigs(sv) {
            Ok(s) => s,
            Err(e) => {
                return Err(e);
            },
        },
        _ => {
            return Err(HueObserverError::MalformedResource);
        },
    };
    Ok(DeviceGet { id, metadata, product_data, services })
}

// ---------------------------------------------------------------------------
// The light payload and its capability blocks.
// ---------------------------------------------------------------------------

/// The on/off block: an object with an `on` boolean.
pub open spec fn parse_on_spec(v: RawValue) -> Option<On> {
    match v {
        RawValue::Obj(fs) => match field_bool(fs@, "on"@) {
            Some(on) => Some(On { on }),
            _ => None,
        },
        _ => None,
    }
}

fn parse_on(v: &RawValue) -> (r: Result<On, HueObserverError>)
    ensures
        match r {
            Ok(o) => parse_on_spec(*v) == Some(o),
            Err(e) => parse_on_spec(*v) is None && e is MalformedResource,
        },
{
    let fields = match v {
        RawValue::Obj(fs) => fs,
        _ => {
            return Err(HueObserverError::MalformedResource);
        },
    };
    match get_bool(fields, "on") {
        Ok(on) => Ok(On { on }),
        Err(e) => Err(e),
    }
}

/// The dimming block: a required brightness and an optional minimum dim
/// level, both kept as raw numeric literals.
pub open spec fn parse_dimming_spec(v: RawValue) -> Option<Dimming> {
    match v {
        RawValue::Obj(fs) => match (
            field_num(fs@, "brightness"@),
            field_opt_num(fs@, "min_dim_level"@),
        ) {
            (Some(brightness), Some(min_dim_level)) => Some(Dimming { brightness, min_dim_level }),
            _ => None,
        },
        _ => None,
    }
}

fn parse_dimming(v: &RawValue) -> (r: Result<Dimming, HueObserverError>)
    ensures
        match r {
            Ok(d) => parse_dimming_spec(*v) == Some(d),
            Err(e) => parse_dimming_spec(*v) is None && e is MalformedResource,
        },
{
    let fields = match v {
        RawValue::Obj(fs) => fs,
        _ => {
            return Err(HueObserverError::MalformedResource);
        },
    };
    let brightness = match get_num(fields, "brightness") {
        Ok(n) => n,
        Err(e) => {
            return Err(e);
        },
    };
    let min_dim_level = match get_opt_num(fields, "min_dim_level") {
        Ok(n) => n,
        Err(e) => {
            return Err(e);
        },
    };
    Ok(Dimming { brightness, min_dim_level })
}

/// The mirek range of the color-temperature block.
pub open spec fn parse_mirek_schema_spec(v: RawValue) -> Option<MirekSchema> {
    match v {
        RawValue::Obj(fs) => match (
            field_usize(fs@, "mirek_minimum"@),
            field_usize(fs@, "mirek_maximum"@),
        ) {
            (Some(mirek_minimum), Some(mirek_maximum)) => Some(
                MirekSchema { mirek_minimum, mirek_maximum },
            ),
            _ => None,
        },
        _ => None,
    }
}

fn parse_mirek_schema(v: &RawValue) -> (r: Result<MirekSchema, HueObserverError>)
    ensures
        match r {
            Ok(m) => parse_mirek_schema_spec(*v) == Some(m),
            Err(e) => parse_mirek_schema_spec(*v) is None && e is MalformedResource,
        },
{
    let fields = match v {
        RawValue::Obj(fs) => fs,
        _ => {
            return Err(HueObserverError::MalformedResource);
        },
    };
    let mirek_minimum = match get_usize(fields, "mirek_minimum") {
        Ok(u) => u,
        Err(e) => {
            return Err(e);
        },
    };
    let mirek_maximum = match get_usize(fields, "mirek_maximum") {
        Ok(u) => u,
        Err(e) => {
            return Err(e);
        },
    };
    Ok(MirekSchema { mirek_minimum, mirek_maximum })
}

/// The color-temperature block: an optional current mirek value, its
/// validity flag, and the supported range.
pub open spec fn parse_color_temperature_spec(v: RawValue) -> Option<ColorTemperature> {
    match v {
        RawValue::Obj(fs) => match (
            field_opt_usize(fs@, "mirek"@),
            field_bool(fs@, "mirek_valid"@),
            lookup_field(fs@, "mirek_schema"@),
        ) {
            (Some(mirek), Some(mirek_valid), Some(sv)) => match parse_mirek_schema_spec(sv) {
                Some(mirek_schema) => Some(ColorTemperature { mirek, mirek_valid, mirek_schema }),
                None => None,
            },
            _ => None,
        },
        _ => None,
    }
}

fn parse_color_temperature(v: &RawValue) -> (r: Result<ColorTemperature, HueObserverError>)
    ensures
        match r {
            Ok(c) => parse_color_temperature_spec(*v) == Some(c),
            Err(e) => parse_color_temperature_spec(*v) is None && e is MalformedResource,
        },
{
    let fields = match v {
        RawValue::Obj(fs) => fs,
        _ => {
            return Err(HueObserverError::MalformedResource);
        },
    };
    let mirek = match get_opt_usize(fields, "mirek") {
        Ok(u) => u,
        Err(e) => {
            return Err(e);
        },
    };
    let mirek_valid = match get_bool(fields, "mirek_valid") {
        Ok(b) => b,
        Err(e) => {
            return Err(e);
        },
    };
    let mirek_schema = match obj_get(fields, "mirek_schema") {
        Some(sv) => match parse_mirek_schema(sv) {
            Ok(m) => m,
            Err(e) => {
                return Err(e);
            },
        },
        None => {
            return Err(HueObserverError::MalformedResource);
        },
    };
    Ok(ColorTemperature { mirek, mirek_valid, mirek_schema })
}

/// A chromaticity point: two numeric coordinates.
pub open spec fn parse_xy_spec(v: RawValue) -> Option<Xy> {
    match v {
        RawValue::Obj(fs) => match (field_num(fs@, "x"@), field_num(fs@, "y"@)) {
            (Some(x), Some(y)) => Some(Xy { x, y }),
            _ => None,
        },
        _ => None,
    }
}

fn parse_xy(v: &RawValue) -> (r: Result<Xy, HueObserverError>)
    ensures
        match r {
            Ok(p) => parse_xy_spec(*v) == Some(p),
            Err(e) => parse_xy_spec(*v) is None && e is MalformedResource,
        },
{
    let fields = match v {
        RawValue::Obj(fs) => fs,
        _ => {
            return Err(HueObserverError::MalformedResource);
        },
    };
    let x = match get_num(fields, "x") {
        Ok(n) => n,
        Err(e) => {
            return Err(e);
        },
    };
    let y = match get_num(fields, "y") {
        Ok(n) => n,
        Err(e) => {
            return Err(e);
        },
    };
    Ok(Xy { x, y })
}

/// The gamut triangle: three chromaticity points.
pub open spec fn parse_gamut_spec(v: RawValue) -> Option<Gamut> {
    match v {
        RawValue::Obj(fs) => match (
            lookup_field(fs@, "red"@),
            lookup_field(fs@, "green"@),
            lookup_field(fs@, "blue"@),
        ) {
            (Some(rv), Some(gv), Some(bv)) => match (
                parse_xy_spec(rv),
                parse_xy_spec(gv),
                parse_xy_spec(bv),
            ) {
                (Some(red), Some(green), Some(blue)) => Some(Gamut { red, green, blue }),
                _ => None,
            },
            _ => None,
        },
        _ => None,
    }
}

fn parse_gamut(v: &RawValue) -> (r: Result<Gamut, HueObserverError>)
    ensures
        match r {
            Ok(g) => parse_gamut_spec(*v) == Some(g),
            Err(e) => parse_gamut_spec(*v) is None && e is MalformedResource,
        },
{
    let fields = match v {
        RawValue::Obj(fs) => fs,
        _ => {
            return Err(HueObserverError::MalformedResource);
        },
    };
    let red = match obj_get(fields, "red") {
        Some(rv) => match parse_xy(rv) {
            Ok(p) => p,
            Err(e) => {
                return Err(e);
            },
        },
        None => {
            return Err(HueObserverError::MalformedResource);
        },
    };
    let green = match obj_get(fields, "green") {
        Some(gv) => match parse_xy(gv) {
            Ok(p) => p,
            Err(e) => {
                return Err(e);
            },
        },
        None => {
            return Err(HueObserverError::MalformedResource);
        },
    };
    let blue = match obj_get(fields, "blue") {
        Some(bv) => match parse_xy(bv) {
            Ok(p) => p,
            Err(e) => {
                return Err(e);
            },
        },
        None => {
            return Err(HueObserverError::MalformedResource);
        },
    };
    Ok(Gamut { red, green, blue })
}

/// The color block: current point, gamut triangle and gamut class.
pub open spec fn parse_color_spec(v: RawValue) -> Option<Color> {
    match v {
        RawValue::Obj(fs) => match (
            lookup_field(fs@, "xy"@),
            lookup_field(fs@, "gamut"@),
            field_char(fs@, "gamut_type"@),
        ) {
            (Some(xv), Some(gv), Some(gamut_type)) => match (
                parse_xy_spec(xv),
                parse_gamut_spec(gv),
            ) {
                (Some(xy), Some(gamut)) => Some(Color { xy, gamut, gamut_type }),
                _ => None,
            },
            _ => None,
        },
        _ => None,
    }
}

fn parse_color(v: &RawValue) -> (r: Result<Color, HueObserverError>)
    ensures
        match r {
            Ok(c) => parse_color_spec(*v) == Some(c),
            Err(e) => parse_color_spec(*v) is None && e is MalformedResource,
        },
{
    let fields = match v {
        RawValue::Obj(fs) => fs,
        _ => {
            return Err(HueObserverError::MalformedResource);
        },
    };
    let xy = match obj_get(fields, "xy") {
        Some(xv) => match parse_xy(xv) {
            Ok(p) => p,
            Err(e) => {
                return Err(e);
            },
        },
        None => {
            return Err(HueObserverError::MalformedResource);
        },
    };
    let gamut = match obj_get(fields, "gamut") {
        Some(gv) => match parse_gamut(gv) {
            Ok(g) => g,
            Err(e) => {
                return Err(e);
            },
        },
        None => {
            return Err(HueObserverError::MalformedResource);
        },
    };
    let gamut_type = match get_char_field(fields, "gamut_type") {
        Ok(c) => c,
        Err(e) => {
            return Err(e);
        },
    };
    Ok(Color { xy, gamut, gamut_type })
}

/// An ordered list of strings.
pub open spec fn parse_strings_spec(vs: Seq<RawValue>) -> Option<Seq<Seq<char>>>
    decreases vs.len(),
{
    if vs.len() == 0 {
        Some(Seq::empty())
    } else {
        match vs[0] {
            RawValue::Str(s) => match parse_strings_spec(vs.skip(1)) {
                Some(rest) => Some(seq![s@] + rest),
                None => None,
            },
            _ => None,
        }
    }
}

fn parse_strings(vs: &Vec<RawValue>) -> (r: Result<Vec<String>, HueObserverError>)
    ensures
        match r {
            Ok(ss) => parse_strings_spec(vs@) == Some(ss.deep_view()),
            Err(e) => parse_strings_spec(vs@) is None && e is MalformedResource,
        },
{
    let mut out: Vec<String> = Vec::new();
    let mut i: usize = 0;
    proof {
        assert(vs@.skip(0) =~= vs@);
    }
    while i < vs.len()
        invariant
            i <= vs.len(),
            forall|rest: Seq<Seq<char>>|
                parse_strings_spec(vs@.skip(i as int)) == Some(rest) ==> parse_strings_spec(vs@)
                    == Some(out.deep_view() + rest),
            parse_strings_spec(vs@.skip(i as int)) is None ==> parse_strings_spec(vs@) is None,
        decreases vs.len() - i,
    {
        let ghost prev = out.deep_view();
        let ghost tail = vs@.skip(i as int);
        match &vs[i] {
            RawValue::Str(s) => {
                out.push(s.clone());
                proof {
                    assert(tail[0] == vs@[i as int]);
                    assert(tail.skip(1) =~= vs@.skip(i + 1));
                    let sv = vs@[i as int]->Str_0@;
                    assert forall|rest: Seq<Seq<char>>|
                        parse_strings_spec(vs@.skip(i + 1)) == Some(rest) implies parse_strings_spec(
                        vs@,
                    ) == Some(out.deep_view() + rest) by {
                        assert(parse_strings_spec(tail) == Some(seq![sv] + rest));
                        assert(out.deep_view() =~= prev.push(sv));
                        assert(prev + (seq![sv] + rest) =~= out.deep_view() + rest);
                    }
                }
            },
            _ => {
                proof {
                    assert(tail[0] == vs@[i as int]);
                }
                return Err(HueObserverError::MalformedResource);
            },
        }
        i = i + 1;
    }
    proof {
        assert(vs@.skip(vs@.len() as int) =~= Seq::<RawValue>::empty());
        assert(out.deep_view() + Seq::<Seq<char>>::empty() =~= out.deep_view());
    }
    Ok(out)
}

/// The dynamics block.
pub open spec fn parse_dynamics_spec(v: RawValue) -> Option<DynamicsV> {
    match v {
        RawValue::Obj(fs) => match (
            field_str(fs@, "status"@),
            lookup_field(fs@, "status_values"@),
            field_num(fs@, "speed"@),
            field_bool(fs@, "speed_valid"@),
        ) {
            (Some(status), Some(RawValue::Arr(sv)), Some(speed), Some(speed_valid)) => match parse_strings_spec(
                sv@,
            ) {
                Some(status_values) => Some(
                    DynamicsV { status, status_values, speed, speed_valid },
                ),
                None => None,
            },
            _ => None,
        },
        _ => None,
    }
}

fn parse_dynamics(v: &RawValue) -> (r: Result<Dynamics, HueObserverError>)
    ensures
        match r {
            Ok(d) => parse_dynamics_spec(*v) == Some(d.deep_view()),
            Err(e) => parse_dynamics_spec(*v) is None && e is MalformedResource,
        },
{
    let fields = match v {
        RawValue::Obj(fs) => fs,
        _ => {
            return Err(HueObserverError::MalformedResource);
        },
    };
    let status = match get_str(fields, "status") {
        Ok(s) => s,
        Err(e) => {
            return Err(e);
        },
    };
    let status_values = match obj_get(fields, "status_values") {
        Some(RawValue::Arr(sv)) => match parse_strings(sv) {
            Ok(ss) => ss,
            Err(e) => {
                return Err(e);
            },
        },
        _ => {
            return Err(HueObserverError::MalformedResource);
        },
    };
    let speed = match get_num(fields, "speed") {
        Ok(n) => n,
        Err(e) => {
            return Err(e);
        },
    };
    let speed_valid = match get_bool(fields, "speed_valid") {
        Ok(b) => b,
        Err(e) => {
            return Err(e);
        },
    };
    Ok(Dynamics { status, status_values, speed, speed_valid })
}

/// The alert block: the supported alert actions.
pub open spec fn parse_alert_spec(v: RawValue) -> Option<AlertV> {
    match v {
        RawValue::Obj(fs) => match lookup_field(fs@, "action_values"@) {
            Some(RawValue::Arr(av)) => match parse_strings_spec(av@) {
                Some(action_values) => Some(AlertV { action_values }),
                None => None,
            },
            _ => None,
        },
        _ => None,
    }
}

fn parse_alert(v: &RawValue) -> (r: Result<Alert, HueObserverError>)
    ensures
        match r {
            Ok(a) => parse_alert_spec(*v) == Some(a.deep_view()),
            Err(e) => parse_alert_spec(*v) is None && e is MalformedResource,
        },
{
    let fields = match v {
        RawValue::Obj(fs) => fs,
        _ => {
            return Err(HueObserverError::MalformedResource);
        },
    };
    let action_values = match obj_get(fields, "action_values") {
        Some(RawValue::Arr(av)) => match parse_strings(av) {
            Ok(ss) => ss,
            Err(e) => {
                return Err(e);
            },
        },
        _ => {
            return Err(HueObserverError::MalformedResource);
        },
    };
    Ok(Alert { action_values })
}

/// The required `owner` reference of a service resource.
pub open spec fn req_owner(fields: Seq<RawField>) -> Option<ResourceIdentifierV> {
    match lookup_field(fields, "owner"@) {
        Some(v) => parse_rig_spec(v),
        None => None,
    }
}

/// The required on/off block of a light.
pub open spec fn req_on(fields: Seq<RawField>) -> Option<On> {
    match lookup_field(fields, "on"@) {
        Some(v) => parse_on_spec(v),
        None => None,
    }
}

/// An optional capability block: absent or null contributes nothing; a
/// present block must conform.
pub open spec fn opt_dimming(fields: Seq<RawField>) -> Option<Option<Dimming>> {
    match lookup_field(fields, "dimming"@) {
        None => Some(None),
        Some(RawValue::Null) => Some(None),
        Some(v) => match parse_dimming_spec(v) {
            Some(d) => Some(Some(d)),
            None => None,
        },
    }
}

pub open spec fn opt_color_temperature(fields: Seq<RawField>) -> Option<Option<ColorTemperature>> {
    match lookup_field(fields, "color_temperature"@) {
        None => Some(None),
        Some(RawValue::Null) => Some(None),
        Some(v) => match parse_color_temperature_spec(v) {
            Some(c) => Some(Some(c)),
            None => None,
        },
    }
}

pub open spec fn opt_color(fields: Seq<RawField>) -> Option<Option<Color>> {
    match lookup_field(fields, "color"@) {
        None => Some(None),
        Some(RawValue::Null) => Some(None),
        Some(v) => match parse_color_spec(v) {
            Some(c) => Some(Some(c)),
            None => None,
        },
    }
}

pub open spec fn opt_dynamics(fields: Seq<RawField>) -> Option<Option<DynamicsV>> {
    match lookup_field(fields, "dynamics"@) {
        None => Some(None),
        Some(RawValue::Null) => Some(None),
        Some(v) => match parse_dynamics_spec(v) {
            Some(d) => Some(Some(d)),
            None => None,
        },
    }
}

pub open spec fn opt_alert(fields: Seq<RawField>) -> Option<Option<AlertV>> {
    match lookup_field(fields, "alert"@) {
        None => Some(None),
        Some(RawValue::Null) => Some(None),
        Some(v) => match parse_alert_spec(v) {
            Some(a) => Some(Some(a)),
            None => None,
        },
    }
}

/// A light payload.
pub open spec fn parse_light_spec(fields: Seq<RawField>) -> Option<LightGetV> {
    match (
        field_str(fields, "id"@),
        req_owner(fields),
        req_on(fields),
        opt_dimming(fields),
        opt_color_temperature(fields),
        opt_color(fields),
        opt_dynamics(fields),
        opt_alert(fields),
    ) {
        (
            Some(id),
            Some(owner),
            Some(on),
            Some(dimming),
            Some(color_temperature),
            Some(color),
            Some(dynamics),
            Some(alert),
        ) => Some(
            LightGetV { id, owner, on, dimming, color_temperature, color, dynamics, alert },
        ),
        _ => None,
    }
}

pub fn parse_light(fields: &Vec<RawField>) -> (r: Result<LightGet, HueObserverError>)
    ensures
        match r {
            Ok(l) => parse_light_spec(fields@) == Some(l.deep_view()),
            Err(e) => parse_light_spec(fields@) is None && e is MalformedResource,
        },
{
    let id = match get_str(fields, "id") {
        Ok(s) => s,
        Err(e) => {
            return Err(e);
        },
    };
    let owner = match obj_get(fields, "owner") {
        Some(v) => match parse_rig(v) {
            Ok(o) => o,
            Err(e) => {
                return Err(e);
            },
        },
        None => {
            return Err(HueObserverError::MalformedResource);
        },
    };
    let on = match obj_get(fields, "on") {
        Some(v) => match parse_on(v) {
            Ok(o) => o,
            Err(e) => {
                return Err(e);
            },
        },
        None => {
            return Err(HueObserverError::MalformedResource);
        },
    };
    let dimming = match obj_get(fields, "dimming") {
        None => None,
        Some(RawValue::Null) => None,
        Some(v) => match parse_dimming(v) {
            Ok(d) => Some(d),
            Err(e) => {
                return Err(e);
            },
        },
    };
    let color_temperature = match obj_get(fields, "color_temperature") {
        None => None,
        Some(RawValue::Null) => None,
        Some(v) => match parse_color_temperature(v) {
            Ok(c) => Some(c),
            Err(e) => {
                return Err(e);
            },
        },
    };
    let color = match obj_get(fields, "color") {
        None => None,
        Some(RawValue::Null) => None,
        Some(v) => match parse_color(v) {
            Ok(c) => Some(c),
            Err(e) => {
                return Err(e);
            },
        },
    };
    let dynamics = match obj_get(fields, "dynamics") {
        None => None,
        Some(RawValue::Null) => None,
        Some(v) => match parse_dynamics(v) {
            Ok(d) => Some(d),
            Err(e) => {
                return Err(e);
            },
        },
    };
    let alert = match obj_get(fields, "alert") {
        None => None,
        Some(RawValue::Null) => None,
        Some(v) => match parse_alert(v) {
            Ok(a) => Some(a),
            Err(e) => {
                return Err(e);
            },
        },
    };
    Ok(LightGet { id, owner, on, dimming, color_temperature, color, dynamics, alert })
}

// ---------------------------------------------------------------------------
// The button payload.
// ---------------------------------------------------------------------------

/// The instant an RFC 3339 date-and-time string denotes, in milliseconds
/// since the Unix epoch, or nothing if the string is not one.
pub uninterp spec fn rfc3339_millis(s: Seq<char>) -> Option<i64>;

/// Relies on chrono's `DateTime::parse_from_rfc3339` and `timestamp_millis`:
/// whether a string is a valid RFC 3339 date-and-time, and which instant it
/// denotes, depend on the characters alone.
#[verifier::external_body]
fn parse_rfc3339_millis(s: &str) -> (r: Option<i64>)
    ensures
        r == rfc3339_millis(s@),
{
    match chrono::DateTime::parse_from_rfc3339(s) {
        Ok(d) => Some(d.timestamp_millis()),
        Err(_) => None,
    }
}

/// Button control metadata.
pub open spec fn parse_button_metadata_spec(v: RawValue) -> Option<ButtonMetadata> {
    match v {
        RawValue::Obj(fs) => match field_u8(fs@, "control_id"@) {
            Some(control_id) => Some(ButtonMetadata { control_id }),
            _ => None,
        },
        _ => None,
    }
}

fn parse_button_metadata(v: &RawValue) -> (r: Result<ButtonMetadata, HueObserverError>)
    ensures
        match r {
            Ok(m) => parse_button_metadata_spec(*v) == Some(m),
            Err(e) => parse_button_metadata_spec(*v) is None && e is MalformedResource,
        },
{
    let fields = match v {
        RawValue::Obj(fs) => fs,
        _ => {
            return Err(HueObserverError::MalformedResource);
        },
    };
    match get_u8(fields, "control_id") {
        Ok(control_id) => Ok(ButtonMetadata { control_id }),
        Err(e) => Err(e),
    }
}

/// The last button report: a timestamp string and an event name.
pub open spec fn parse_button_report_spec(v: RawValue) -> Option<ButtonReport> {
    match v {
        RawValue::Obj(fs) => match (field_str(fs@, "updated"@), field_str(fs@, "event"@)) {
            (Some(u), Some(e)) => match rfc3339_millis(u) {
                Some(updated) => Some(ButtonReport { updated, event: button_event_of(e) }),
                None => None,
            },
            _ => None,
        },
        _ => None,
    }
}

fn parse_button_report(v: &RawValue) -> (r: Result<ButtonReport, HueObserverError>)
    ensures
        match r {
            Ok(b) => parse_button_report_spec(*v) == Some(b),
            Err(e) => parse_button_report_spec(*v) is None && e is MalformedResource,
        },
{
    let fields = match v {
        RawValue::Obj(fs) => fs,
        _ => {
            return Err(HueObserverError::MalformedResource);
        },
    };
    let updated_text = match get_str(fields, "updated") {
        Ok(s) => s,
        Err(e) => {
            return Err(e);
        },
    };
    let event_name = match get_str(fields, "event") {
        Ok(s) => s,
        Err(e) => {
            return Err(e);
        },
    };
    let updated = match parse_rfc3339_millis(updated_text.as_str()) {
        Some(t) => t,
        None => {
            return Err(HueObserverError::MalformedResource);
        },
    };
    Ok(ButtonReport { updated, event: button_event_from(event_name.as_str()) })
}

/// An ordered list of event names.
pub open spec fn parse_events_spec(vs: Seq<RawValue>) -> Option<Seq<ButtonEvent>>
    decreases vs.len(),
{
    if vs.len() == 0 {
        Some(Seq::empty())
    } else {
        match vs[0] {
            RawValue::Str(s) => match parse_events_spec(vs.skip(1)) {
                Some(rest) => Some(seq![button_event_of(s@)] + rest),
                None => None,
            },
            _ => None,
        }
    }
}

fn parse_events(vs: &Vec<RawValue>) -> (r: Result<Vec<ButtonEvent>, HueObserverError>)
    ensures
        match r {
            Ok(es) => parse_events_spec(vs@) == Some(es.deep_view()),
            Err(e) => parse_events_spec(vs@) is None && e is MalformedResource,
        },
{
    let mut out: Vec<ButtonEvent> = Vec::new();
    let mut i: usize = 0;
    proof {
        assert(vs@.skip(0) =~= vs@);
    }
    while i < vs.len()
        invariant
            i <= vs.len(),
            forall|rest: Seq<ButtonEvent>|
                parse_events_spec(vs@.skip(i as int)) == Some(rest) ==> parse_events_spec(vs@)
                    == Some(out.deep_view() + rest),
            parse_events_spec(vs@.skip(i as int)) is None ==> parse_events_spec(vs@) is None,
        decreases vs.len() - i,
    {
        let ghost prev = out.deep_view();
        let ghost tail = vs@.skip(i as int);
        match &vs[i] {
            RawValue::Str(s) => {
                out.push(button_event_from(s.as_str()));
                proof {
                    assert(tail[0] == vs@[i as int]);
                    assert(tail.skip(1) =~= vs@.skip(i + 1));
                    let ev = button_event_of(vs@[i as int]->Str_0@);
                    assert forall|rest: Seq<ButtonEvent>|
                        parse_events_spec(vs@.skip(i + 1)) == Some(rest) implies parse_events_spec(
                        vs@,
                    ) == Some(out.deep_view() + rest) by {
                        assert(parse_events_spec(tail) == Some(seq![ev] + rest));
                        assert(out.deep_view() =~= prev.push(ev));
                        assert(prev + (seq![ev] + rest) =~= out.deep_view() + rest);
                    }
                }
            },
            _ => {
                proof {
                    assert(tail[0] == vs@[i as int]);
                }
                return Err(HueObserverError::MalformedResource);
            },
        }
        i = i + 1;
    }
    proof {
        assert(vs@.skip(vs@.len() as int) =~= Seq::<RawValue>::empty());
        assert(out.deep_view() + Seq::<ButtonEvent>::empty() =~= out.deep_view());
    }
    Ok(out)
}

/// The button state block: an optional last report, the repeat interval and
/// the supported event kinds.
pub open spec fn parse_button_block_spec(v: RawValue) -> Option<ButtonV> {
    match v {
        RawValue::Obj(fs) => match (
            opt_button_report(fs@),
            field_usize(fs@, "repeat_interval"@),
            lookup_field(fs@, "event_values"@),
        ) {
            (Some(button_report), Some(repeat_interval), Some(RawValue::Arr(ev))) => match parse_events_spec(
                ev@,
            ) {
                Some(event_values) => Some(
                    ButtonV { button_report, repeat_interval, event_values },
                ),
                None => None,
            },
            _ => None,
        },
        _ => None,
    }
}

pub open spec fn opt_button_report(fields: Seq<RawField>) -> Option<Option<ButtonReport>> {
    match lookup_field(fields, "button_report"@) {
        None => Some(None),
        Some(RawValue::Null) => Some(None),
        Some(v) => match parse_button_report_spec(v) {
            Some(b) => Some(Some(b)),
            None => None,
        },
    }
}

fn parse_button_block(v: &RawValue) -> (r: Result<Button, HueObserverError>)
    ensures
        match r {
            Ok(b) => parse_button_block_spec(*v) == Some(b.deep_view()),
            Err(e) => parse_button_block_spec(*v) is None && e is MalformedResource,
        },
{
    let fields = match v {
        RawValue::Obj(fs) => fs,
        _ => {
            return Err(HueObserverError::MalformedResource);
        },
    };
    let button_report = match obj_get(fields, "button_report") {
        None => None,
        Some(RawValue::Null) => None,
        Some(bv) => match parse_button_report(bv) {
            Ok(b) => Some(b),
            Err(e) => {
                return Err(e);
            },
        },
    };
    let repeat_interval = match get_usize(fields, "repeat_interval") {
        Ok(u) => u,
        Err(e) => {
            return Err(e);
        },
    };
    let event_values = match obj_get(fields, "event_values") {
        Some(RawValue::Arr(ev)) => match parse_events(ev) {
            Ok(es) => es,
            Err(e) => {
                return Err(e);
            },
        },
        _ => {
            return Err(HueObserverError::MalformedResource);
        },
    };
    Ok(Button { button_report, repeat_interval, event_values })
}

/// A button payload.
pub open spec fn parse_button_spec(fields: Seq<RawField>) -> Option<ButtonGetV> {
    match (
        field_str(fields, "id"@),
        req_owner(fields),
        lookup_field(fields, "metadata"@),
        lookup_field(fields, "button"@),
    ) {
        (Some(id), Some(owner), Some(mv), Some(bv)) => match (
            parse_button_metadata_spec(mv),
            parse_button_block_spec(bv),
        ) {
            (Some(metadata), Some(button)) => Some(ButtonGetV { id, owner, metadata, button }),
            _ => None,
        },
        _ => None,
    }
}

pub fn parse_button(fields: &Vec<RawField>) -> (r: Result<ButtonGet, HueObserverError>)
    ensures
        match r {
            Ok(b) => parse_button_spec(fields@) == Some(b.deep_view()),
            Err(e) => parse_button_spec(fields@) is None && e is MalformedResource,
        },
{
    let id = match get_str(fields, "id") {
        Ok(s) => s,
        Err(e) => {
            return Err(e);
        },
    };
    let owner = match obj_get(fields, "owner") {
        Some(v) => match parse_rig(v) {
            Ok(o) => o,
            Err(e) => {
                return Err(e);
            },
        },
        None => {
            return Err(HueObserverError::MalformedResource);
        },
    };
    let metadata = match obj_get(fields, "metadata") {
        Some(mv) => match parse_button_metadata(mv) {
            Ok(m) => m,
            Err(e) => {
                return Err(e);
            },
        },
        None => {
            return Err(HueObserverError::MalformedResource);
        },
    };
    let button = match obj_get(fields, "button") {
        Some(bv) => match parse_button_block(bv) {
            Ok(b) => b,
            Err(e) => {
                return Err(e);
            },
        },
        None => {
            return Err(HueObserverError::MalformedResource);
        },
    };
    Ok(ButtonGet { id, owner, metadata, button })
}

// ---------------------------------------------------------------------------
// Resource dispatch and the whole response.
// ---------------------------------------------------------------------------

/// The `type` tags this core recognizes.
pub open spec fn known_resource_type(t: Seq<char>) -> bool {
    t == "device"@ || t == "light"@ || t == "button"@
}

/// The id an unrecognized resource keeps, when it carried one.
pub open spec fn unknown_id(fields: Seq<RawField>) -> Option<Seq<char>> {
    match lookup_field(fields, "id"@) {
        Some(RawValue::Str(s)) => Some(s@),
        _ => None,
    }
}

/// One resource: a known tag demands a conforming payload, an unrecognized
/// tag parses to `Unknown`, and a missing or non-string tag is malformed.
pub open spec fn parse_resource_spec(v: RawValue) -> Option<ResourceV> {
    match v {
        RawValue::Obj(fs) => match field_str(fs@, "type"@) {
            Some(t) => if t == "device"@ {
                match parse_device_spec(fs@) {
                    Some(d) => Some(ResourceV::Device(d)),
                    None => None,
                }
            } else if t == "light"@ {
                match parse_light_spec(fs@) {
                    Some(l) => Some(ResourceV::Light(l)),
                    None => None,
                }
            } else if t == "button"@ {
                match parse_button_spec(fs@) {
                    Some(b) => Some(ResourceV::Button(b)),
                    None => None,
                }
            } else {
                Some(ResourceV::Unknown { id: unknown_id(fs@) })
            },
            None => None,
        },
        _ => None,
    }
}

pub fn parse_resource(v: &RawValue) -> (r: Result<Resource, HueObserverError>)
    ensures
        match r {
            Ok(res) => parse_resource_spec(*v) == Some(res.deep_view()),
            Err(e) => parse_resource_spec(*v) is None && e is MalformedResource,
        },
{
    let fields = match v {
        RawValue::Obj(fs) => fs,
        _ => {
            return Err(HueObserverError::MalformedResource);
        },
    };
    let tag = match obj_get(fields, "type") {
        Some(RawValue::Str(s)) => s,
        _ => {
            return Err(HueObserverError::MalformedResource);
        },
    };
    if str_eq(tag.as_str(), "device") {
        match parse_device(fields) {
            Ok(d) => Ok(Resource::Device(d)),
            Err(e) => Err(e),
        }
    } else if str_eq(tag.as_str(), "light") {
        match parse_light(fields) {
            Ok(l) => Ok(Resource::Light(l)),
            Err(e) => Err(e),
        }
    } else if str_eq(tag.as_str(), "button") {
        match parse_button(fields) {
            Ok(b) => Ok(Resource::Button(b)),
            Err(e) => Err(e),
        }
    } else {
        let id = match obj_get(fields, "id") {
            Some(RawValue::Str(s)) => Some(s.clone()),
            _ => None,
        };
        Ok(Resource::Unknown { id })
    }
}

/// The forward-compatibility law: an object whose `type` tag is a string
/// this core does not recognize still parses successfully, to `Unknown`,
/// keeping at most its id — never an error, whatever else the object holds.
pub proof fn lemma_unknown_type_parses(v: RawValue)
    requires
        v matches RawValue::Obj(fs) && field_str(fs@, "type"@) matches Some(t)
            && !known_resource_type(t),
    ensures
        parse_resource_spec(v) matches Some(r) && r matches ResourceV::Unknown { id } && id
            == unknown_id(v->Obj_0@),
{
}

/// The flat resource collection, in order.
pub open spec fn parse_resources_spec(vs: Seq<RawValue>) -> Option<Seq<ResourceV>>
    decreases vs.len(),
{
    if vs.len() == 0 {
        Some(Seq::empty())
    } else {
        match parse_resource_spec(vs[0]) {
            Some(res) => match parse_resources_spec(vs.skip(1)) {
                Some(rest) => Some(seq![res] + rest),
                None => None,
            },
            None => None,
        }
    }
}

pub fn parse_resources(vs: &Vec<RawValue>) -> (r: Result<Vec<Resource>, HueObserverError>)
    ensures
        match r {
            Ok(rs) => parse_resources_spec(vs@) == Some(rs.deep_view()),
            Err(e) => parse_resources_spec(vs@) is None && e is MalformedResource,
        },
{
    let mut out: Vec<Resource> = Vec::new();
    let mut i: usize = 0;
    proof {
        assert(vs@.skip(0) =~= vs@);
    }
    while i < vs.len()
        invariant
            i <= vs.len(),
            forall|rest: Seq<ResourceV>|
                parse_resources_spec(vs@.skip(i as int)) == Some(rest) ==> parse_resources_spec(
                    vs@,
                ) == Some(out.deep_view() + rest),
            parse_resources_spec(vs@.skip(i as int)) is None ==> parse_resources_spec(vs@) is None,
        decreases vs.len() - i,
    {
        let ghost prev = out.deep_view();
        let ghost tail = vs@.skip(i as int);
        match parse_resource(&vs[i]) {
            Ok(res) => {
                out.push(res);
                proof {
                    assert(tail[0] == vs@[i as int]);
                    assert(tail.skip(1) =~= vs@.skip(i + 1));
                    let resv = parse_resource_spec(vs@[i as int]).unwrap();
                    assert forall|rest: Seq<ResourceV>|
                        parse_resources_spec(vs@.skip(i + 1)) == Some(rest) implies parse_resources_spec(
                        vs@,
                    ) == Some(out.deep_view() + rest) by {
                        assert(parse_resources_spec(tail) == Some(seq![resv] + rest));
                        assert(out.deep_view() =~= prev.push(resv));
                        assert(prev + (seq![resv] + rest) =~= out.deep_view() + rest);
                    }
                }
            },
            Err(e) => {
                proof {
                    assert(tail[0] == vs@[i as int]);
                }
                return Err(e);
            },
        }
        i = i + 1;
    }
    proof {
        assert(vs@.skip(vs@.len() as int) =~= Seq::<RawValue>::empty());
        assert(out.deep_view() + Seq::<ResourceV>::empty() =~= out.deep_view());
    }
    Ok(out)
}

/// A bridge error object: an object with a `description` string.
pub open spec fn parse_error_spec(v: RawValue) -> Option<HueErrorV> {
    match v {
        RawValue::Obj(fs) => match field_str(fs@, "description"@) {
            Some(description) => Some(HueErrorV { description }),
            _ => None,
        },
        _ => None,
    }
}

fn parse_error(v: &RawValue) -> (r: Result<HueError, HueObserverError>)
    ensures
        match r {
            Ok(he) => parse_error_spec(*v) == Some(he.deep_view()),
            Err(e) => parse_error_spec(*v) is None && e is MalformedResource,
        },
{
    let fields = match v {
        RawValue::Obj(fs) => fs,
        _ => {
            return Err(HueObserverError::MalformedResource);
        },
    };
    match get_str(fields, "description") {
        Ok(description) => Ok(HueError { description }),
        Err(e) => Err(e),
    }
}

/// The bridge's error list, in order.
pub open spec fn parse_errors_spec(vs: Seq<RawValue>) -> Option<Seq<HueErrorV>>
    decreases vs.len(),
{
    if vs.len() == 0 {
        Some(Seq::empty())
    } else {
        match parse_error_spec(vs[0]) {
            Some(he) => match parse_errors_spec(vs.skip(1)) {
                Some(rest) => Some(seq![he] + rest),
                None => None,
            },
            None => None,
        }
    }
}

fn parse_errors(vs: &Vec<RawValue>) -> (r: Result<Vec<HueError>, HueObserverError>)
    ensures
        match r {
            Ok(hes) => parse_errors_spec(vs@) == Some(hes.deep_view()),
            Err(e) => parse_errors_spec(vs@) is None && e is MalformedResource,
        },
{
    let mut out: Vec<HueError> = Vec::new();
    let mut i: usize = 0;
    proof {
        assert(vs@.skip(0) =~= vs@);
    }
    while i < vs.len()
        invariant
            i <= vs.len(),
            forall|rest: Seq<HueErrorV>|
                parse_errors_spec(vs@.skip(i as int)) == Some(rest) ==> parse_errors_spec(vs@)
                    == Some(out.deep_view() + rest),
            parse_errors_spec(vs@.skip(i as int)) is None ==> parse_errors_spec(vs@) is None,
        decreases vs.len() - i,
    {
        let ghost prev = out.deep_view();
        let ghost tail = vs@.skip(i as int);
        match parse_error(&vs[i]) {
            Ok(he) => {
                out.push(he);
                proof {
                    assert(tail[0] == vs@[i as int]);
                    assert(tail.skip(1) =~= vs@.skip(i + 1));
                    let hev = parse_error_spec(vs@[i as int]).unwrap();
                    assert forall|rest: Seq<HueErrorV>|
                        parse_errors_spec(vs@.skip(i + 1)) == Some(rest) implies parse_errors_spec(
                        vs@,
                    ) == Some(out.deep_view() + rest) by {
                        assert(parse_errors_spec(tail) == Some(seq![hev] + rest));
                        assert(out.deep_view() =~= prev.push(hev));
                        assert(prev + (seq![hev] + rest) =~= out.deep_view() + rest);
                    }
                }
            },
            Err(e) => {
                proof {
                    assert(tail[0] == vs@[i as int]);
                }
                return Err(e);
            },
        }
        i = i + 1;
    }
    proof {
        assert(vs@.skip(vs@.len() as int) =~= Seq::<RawValue>::empty());
        assert(out.deep_view() + Seq::<HueErrorV>::empty() =~= out.deep_view());
    }
    Ok(out)
}

/// A whole fetched snapshot: an object with an `errors` array and a `data`
/// array.
pub open spec fn parse_response_spec(v: RawValue) -> Option<DevicesResponseV> {
    match v {
        RawValue::Obj(fs) => match (lookup_field(fs@, "errors"@), lookup_field(fs@, "data"@)) {
            (Some(RawValue::Arr(es)), Some(RawValue::Arr(ds))) => match (
                parse_errors_spec(es@),
                parse_resources_spec(ds@),
            ) {
                (Some(errors), Some(data)) => Some(DevicesResponseV { errors, data }),
                _ => None,
            },
            _ => None,
        },
        _ => None,
    }
}

pub fn parse_response(v: &RawValue) -> (r: Result<DevicesResponse, HueObserverError>)
    ensures
        match r {
            Ok(resp) => parse_response_spec(*v) == Some(resp.deep_view()),
            Err(e) => parse_response_spec(*v) is None && e is MalformedResource,
        },
{
    let fields = match v {
        RawValue::Obj(fs) => fs,
        _ => {
            return Err(HueObserverError::MalformedResource);
        },
    };
    let errors = match obj_get(fields, "errors") {
        Some(RawValue::Arr(es)) => match parse_errors(es) {
            Ok(hes) => hes,
            Err(e) => {
                return Err(e);
            },
        },
        _ => {
            return Err(HueObserverError::MalformedResource);
        },
    };
    let data = match obj_get(fields, "data") {
        Some(RawValue::Arr(ds)) => match parse_resources(ds) {
            Ok(rs) => rs,
            Err(e) => {
                return Err(e);
            },
        },
        _ => {
            return Err(HueObserverError::MalformedResource);
        },
    };
    Ok(DevicesResponse { errors, data })
}

} // verus!

