//! The resource schema: every resource kind the bridge can return, as a
//! discriminated union with an explicit fallback variant for kinds this core
//! does not recognize. Field and variant names follow the bridge's API.
//!
//! Each type has a ghost mirror (the `..V` types) in which every string is a
//! `Seq<char>` and every vector a `Seq`; contracts and the parser's
//! specification speak of those mirrors through `deep_view`.

use vstd::prelude::*;

use crate::raw::RawNumber;

verus! {

/// An error object the bridge reports alongside the resource data.
#[derive(Debug)]
pub struct HueError {
    pub description: String,
}

pub ghost struct HueErrorV {
    pub description: Seq<char>,
}

impl DeepView for HueError {
    type V = HueErrorV;

    open spec fn deep_view(&self) -> HueErrorV {
        HueErrorV { description: self.description.deep_view() }
    }
}

/// A typed reference from one resource to another: the referenced resource's
/// id together with the kind the referrer claims it has.
#[derive(Debug, PartialEq)]
pub struct ResourceIdentifierGet {
    pub rid: String,
    pub rtype: String,
}

pub ghost struct ResourceIdentifierV {
    pub rid: Seq<char>,
    pub rtype: Seq<char>,
}

impl DeepView for ResourceIdentifierGet {
    type V = ResourceIdentifierV;

    open spec fn deep_view(&self) -> ResourceIdentifierV {
        ResourceIdentifierV { rid: self.rid.deep_view(), rtype: self.rtype.deep_view() }
    }
}

/// A physical form factor. The bridge may introduce new values at any time,
/// so an unrecognized string maps to `UnrecognizedArchetype` instead of
/// failing the parse. (`UnknownArchetype` is itself a value the bridge
/// sends, distinct from the fallback.)
#[derive(Clone, Copy, Debug, PartialEq, Eq, Structural)]
pub enum Archetype {
    Bollard,
    BridgeV2,
    CandleBulb,
    CeilingRound,
    CeilingSquare,
    ChristmasTree,
    ClassicBulb,
    DoubleSpot,
    FlexiableLamp,
    FloodBulb,
    FloorLantern,
    FloorShade,
    GroundSpot,
    HueBloom,
    HueCentris,
    HueGo,
    HueIris,
    HueLightstrip,
    HueLightstripTv,
    HuePlay,
    HueSigne,
    HueTube,
    LusterBulb,
    PendantLong,
    PendantRound,
    Plug,
    RecessedCeiling,
    RecessedFloor,
    SingleSpot,
    SpotBulb,
    SultanBulb,
    TableShade,
    TableWash,
    UnknownArchetype,
    VintageBulb,
    WallLantern,
    WallShade,
    WallSpot,
    WallWasher,
    UnrecognizedArchetype,
}

impl DeepView for Archetype {
    type V = Archetype;

    open spec fn deep_view(&self) -> Archetype {
        *self
    }
}

/// A button event kind, with the same fallback rule as `Archetype`.
#[derive(Clone, Copy, Debug, PartialEq, Eq, Structural)]
pub enum ButtonEvent {
    InitialPress,
    Repeat,
    ShortRelease,
    LongRelease,
    DoubleShortRelease,
    LongPress,
    UnrecognizedEvent,
}

impl DeepView for ButtonEvent {
    type V = ButtonEvent;

    open spec fn deep_view(&self) -> ButtonEvent {
        *self
    }
}

/// Display metadata of a device.
#[derive(Debug)]
pub struct DeviceMetadata {
    pub archetype: Archetype,
    pub name: String,
}

pub ghost struct DeviceMetadataV {
    pub archetype: Archetype,
    pub name: Seq<char>,
}

impl DeepView for DeviceMetadata {
    type V = DeviceMetadataV;

    open spec fn deep_view(&self) -> DeviceMetadataV {
        DeviceMetadataV { archetype: self.archetype, name: self.name.deep_view() }
    }
}

/// Manufacturing data of a device.
#[derive(Debug)]
pub struct ProductData {
    pub model_id: String,
    pub manufacturer_name: String,
    pub product_name: String,
    pub product_archetype: Archetype,
    pub certified: bool,
    pub software_version: String,
}

pub ghost struct ProductDataV {
    pub model_id: Seq<char>,
    pub manufacturer_name: Seq<char>,
    pub product_name: Seq<char>,
    pub product_archetype: Archetype,
    pub certified: bool,
    pub software_version: Seq<char>,
}

impl DeepView for ProductData {
    type V = ProductDataV;

    open spec fn deep_view(&self) -> ProductDataV {
        ProductDataV {
            model_id: self.model_id.deep_view(),
            manufacturer_name: self.manufacturer_name.deep_view(),
            product_name: self.product_name.deep_view(),
            product_archetype: self.product_archetype,
            certified: self.certified,
            software_version: self.software_version.deep_view(),
        }
    }
}

/// The payload of a device resource: identity, metadata and the ordered
/// references to the service resources the device owns.
#[derive(Debug)]
pub struct DeviceGet {
    pub id: String,
    pub metadata: DeviceMetadata,
    pub product_data: ProductData,
    pub services: Vec<ResourceIdentifierGet>,
}

pub ghost struct DeviceGetV {
    pub id: Seq<char>,
    pub metadata: DeviceMetadataV,
    pub product_data: ProductDataV,
    pub services: Seq<ResourceIdentifierV>,
}

impl DeepView for DeviceGet {
    type V = DeviceGetV;

    open spec fn deep_view(&self) -> DeviceGetV {
        DeviceGetV {
            id: self.id.deep_view(),
            metadata: self.metadata.deep_view(),
            product_data: self.product_data.deep_view(),
            services: self.services.deep_view(),
        }
    }
}

/// The on/off state of a light.
#[derive(Clone, Copy, Debug, PartialEq, Eq, Structural)]
pub struct On {
    pub on: bool,
}

impl DeepView for On {
    type V = On;

    open spec fn deep_view(&self) -> On {
        *self
    }
}

/// The dimming capability block. Brightness is a percentage.
#[derive(Clone, Copy, Debug, PartialEq, Eq, Structural)]
pub struct Dimming {
    pub brightness: RawNumber,
    pub min_dim_level: Option<RawNumber>,
}

impl DeepView for Dimming {
    type V = Dimming;

    open spec fn deep_view(&self) -> Dimming {
        *self
    }
}

/// The range of color temperatures a light supports, in mirek.
#[derive(Clone, Copy, Debug, PartialEq, Eq, Structural)]
pub struct MirekSchema {
    pub mirek_minimum: usize,
    pub mirek_maximum: usize,
}

impl DeepView for MirekSchema {
    type V = MirekSchema;

    open spec fn deep_view(&self) -> MirekSchema {
        *self
    }
}

/// The color-temperature capability block.
#[derive(Clone, Copy, Debug, PartialEq, Eq, Structural)]
pub struct ColorTemperature {
    pub mirek: Option<usize>,
    pub mirek_valid: bool,
    pub mirek_schema: MirekSchema,
}

impl ColorTemperature {
    pub fn mirek(&self) -> (r: Option<&usize>)
        ensures
            match r {
                Some(m) => self.mirek == Some(*m),
                None => self.mirek is None,
            },
    {
        self.mirek.as_ref()
    }
}

impl DeepView for ColorTemperature {
    type V = ColorTemperature;

    open spec fn deep_view(&self) -> ColorTemperature {
        *self
    }
}

/// A chromaticity point.
#[derive(Clone, Copy, Debug, PartialEq, Eq, Structural)]
pub struct Xy {
    pub x: RawNumber,
    pub y: RawNumber,
}

impl DeepView for Xy {
    type V = Xy;

    open spec fn deep_view(&self) -> Xy {
        *self
    }
}

/// The gamut triangle of a color light.
#[derive(Clone, Copy, Debug, PartialEq, Eq, Structural)]
pub struct Gamut {
    pub red: Xy,
    pub green: Xy,
    pub blue: Xy,
}

impl DeepView for Gamut {
    type V = Gamut;

    open spec fn deep_view(&self) -> Gamut {
        *self
    }
}

/// The color capability block. The gamut type is `A`, `B` or `C`.
#[derive(Clone, Copy, Debug, PartialEq, Eq, Structural)]
pub struct Color {
    pub xy: Xy,
    pub gamut: Gamut,
    pub gamut_type: char,
}

impl DeepView for Color {
    type V = Color;

    open spec fn deep_view(&self) -> Color {
        *self
    }
}

/// The dynamics capability block.
#[derive(Debug)]
pub struct Dynamics {
    pub status: String,
    pub status_values: Vec<String>,
    pub speed: RawNumber,
    pub speed_valid: bool,
}

pub ghost struct DynamicsV {
    pub status: Seq<char>,
    pub status_values: Seq<Seq<char>>,
    pub speed: RawNumber,
    pub speed_valid: bool,
}

impl DeepView for Dynamics {
    type V = DynamicsV;

    open spec fn deep_view(&self) -> DynamicsV {
        DynamicsV {
            status: self.status.deep_view(),
            status_values: self.status_values.deep_view(),
            speed: self.speed,
            speed_valid: self.speed_valid,
        }
    }
}

/// The alert capability block: the alert actions the light supports.
#[derive(Debug)]
pub struct Alert {
    pub action_values: Vec<String>,
}

pub ghost struct AlertV {
    pub action_values: Seq<Seq<char>>,
}

impl DeepView for Alert {
    type V = AlertV;

    open spec fn deep_view(&self) -> AlertV {
        AlertV { action_values: self.action_values.deep_view() }
    }
}

/// The payload of a light resource. Each optional block is present exactly
/// when the physical light supports that capability.
#[derive(Debug)]
pub struct LightGet {
    pub id: String,
    pub owner: ResourceIdentifierGet,
    pub on: On,
    pub dimming: Option<Dimming>,
    pub color_temperature: Option<ColorTemperature>,
    pub color: Option<Color>,
    pub dynamics: Option<Dynamics>,
    pub alert: Option<Alert>,
}

pub ghost struct LightGetV {
    pub id: Seq<char>,
    pub owner: ResourceIdentifierV,
    pub on: On,
    pub dimming: Option<Dimming>,
    pub color_temperature: Option<ColorTemperature>,
    pub color: Option<Color>,
    pub dynamics: Option<DynamicsV>,
    pub alert: Option<AlertV>,
}

impl DeepView for LightGet {
    type V = LightGetV;

    open spec fn deep_view(&self) -> LightGetV {
        LightGetV {
            id: self.id.deep_view(),
            owner: self.owner.deep_view(),
            on: self.on,
            dimming: self.dimming,
            color_temperature: self.color_temperature,
            color: self.color,
            dynamics: self.dynamics.deep_view(),
            alert: self.alert.deep_view(),
        }
    }
}

impl LightGet {
    pub fn dimming(&self) -> (r: Option<&Dimming>)
        ensures
            match r {
                Some(d) => self.dimming == Some(*d),
                None => self.dimming is None,
            },
    {
        self.dimming.as_ref()
    }

    pub fn color_temperature(&self) -> (r: Option<&ColorTemperature>)
        ensures
            match r {
                Some(c) => self.color_temperature == Some(*c),
                None => self.color_temperature is None,
            },
    {
        self.color_temperature.as_ref()
    }

    pub fn color(&self) -> (r: Option<&Color>)
        ensures
            match r {
                Some(c) => self.color == Some(*c),
                None => self.color is None,
            },
    {
        self.color.as_ref()
    }

    pub fn dynamics(&self) -> (r: Option<&Dynamics>)
        ensures
            match r {
                Some(d) => self.dynamics matches Some(v) && v.deep_view() == d.deep_view(),
                None => self.dynamics is None,
            },
    {
        self.dynamics.as_ref()
    }

    pub fn alert(&self) -> (r: Option<&Alert>)
        ensures
            match r {
                Some(a) => self.alert matches Some(v) && v.deep_view() == a.deep_view(),
                None => self.alert is None,
            },
    {
        self.alert.as_ref()
    }
}

/// Control metadata of a button: which of the device's controls it is.
#[derive(Clone, Copy, Debug, PartialEq, Eq, Structural)]
pub struct ButtonMetadata {
    pub control_id: u8,
}

impl DeepView for ButtonMetadata {
    type V = ButtonMetadata;

    open spec fn deep_view(&self) -> ButtonMetadata {
        *self
    }
}

/// The last reported button event: when it happened (milliseconds since the
/// Unix epoch) and what kind of press it was.
#[derive(Clone, Copy, Debug, PartialEq, Eq, Structural)]
pub struct ButtonReport {
    pub updated: i64,
    pub event: ButtonEvent,
}

impl DeepView for ButtonReport {
    type V = ButtonReport;

    open spec fn deep_view(&self) -> ButtonReport {
        *self
    }
}

/// The button state block.
#[derive(Debug)]
pub struct Button {
    pub button_report: Option<ButtonReport>,
    pub repeat_interval: usize,
    pub event_values: Vec<ButtonEvent>,
}

pub ghost struct ButtonV {
    pub button_report: Option<ButtonReport>,
    pub repeat_interval: usize,
    pub event_values: Seq<ButtonEvent>,
}

impl DeepView for Button {
    type V = ButtonV;

    open spec fn deep_view(&self) -> ButtonV {
        ButtonV {
            button_report: self.button_report,
            repeat_interval: self.repeat_interval,
            event_values: self.event_values.deep_view(),
        }
    }
}

impl Button {
    pub fn button_report(&self) -> (r: Option<&ButtonReport>)
        ensures
            match r {
                Some(b) => self.button_report == Some(*b),
                None => self.button_report is None,
            },
    {
        self.button_report.as_ref()
    }

    pub fn event_values(&self) -> (r: Vec<ButtonEvent>)
        ensures
            r@ == self.event_values@,
    {
        let mut out: Vec<ButtonEvent> = Vec::new();
        let mut i: usize = 0;
        while i < self.event_values.len()
            invariant
                i <= self.event_values.len(),
                out@ == self.event_values@.take(i as int),
            decreases self.event_values.len() - i,
        {
            out.push(self.event_values[i]);
            proof {
                assert(self.event_values@.take(i + 1) =~= self.event_values@.take(i as int).push(
                    self.event_values@[i as int],
                ));
            }
            i = i + 1;
        }
        proof {
            assert(self.event_values@.take(self.event_values@.len() as int)
                =~= self.event_values@);
        }
        out
    }
}

/// The payload of a button resource.
#[derive(Debug)]
pub struct ButtonGet {
    pub id: String,
    pub owner: ResourceIdentifierGet,
    pub metadata: ButtonMetadata,
    pub button: Button,
}

pub ghost struct ButtonGetV {
    pub id: Seq<char>,
    pub owner: ResourceIdentifierV,
    pub metadata: ButtonMetadata,
    pub button: ButtonV,
}

impl DeepView for ButtonGet {
    type V = ButtonGetV;

    open spec fn deep_view(&self) -> ButtonGetV {
        ButtonGetV {
            id: self.id.deep_view(),
            owner: self.owner.deep_view(),
            metadata: self.metadata,
            button: self.button.deep_view(),
        }
    }
}

/// One resource of the bridge's flat resource collection. A kind this core
/// does not recognize parses to `Unknown`, which keeps its id (when the
/// resource carried one) so that it can still be a lookup target, but no
/// other payload.
#[derive(Debug)]
pub enum Resource {
    Device(DeviceGet),
    Light(LightGet),
    Button(ButtonGet),
    Unknown { id: Option<String> },
}

pub ghost enum ResourceV {
    Device(DeviceGetV),
    Light(LightGetV),
    Button(ButtonGetV),
    Unknown { id: Option<Seq<char>> },
}

impl DeepView for Resource {
    type V = ResourceV;

    open spec fn deep_view(&self) -> ResourceV {
        match self {
            Resource::Device(d) => ResourceV::Device(d.deep_view()),
            Resource::Light(l) => ResourceV::Light(l.deep_view()),
            Resource::Button(b) => ResourceV::Button(b.deep_view()),
            Resource::Unknown { id } => ResourceV::Unknown { id: id.deep_view() },
        }
    }
}

/// One fetched snapshot: the bridge's own error list and the flat resource
/// collection.
#[derive(Debug)]
pub struct DevicesResponse {
    pub errors: Vec<HueError>,
    pub data: Vec<Resource>,
}

pub ghost struct DevicesResponseV {
    pub errors: Seq<HueErrorV>,
    pub data: Seq<ResourceV>,
}

impl DeepView for DevicesResponse {
    type V = DevicesResponseV;

    open spec fn deep_view(&self) -> DevicesResponseV {
        DevicesResponseV { errors: self.errors.deep_view(), data: self.data.deep_view() }
    }
}

/// The subsequence of `data` whose entries are of a recognized kind, in
/// their original order.
pub open spec fn known_resources(data: Seq<ResourceV>) -> Seq<ResourceV>
    decreases data.len(),
{
    if data.len() == 0 {
        Seq::empty()
    } else {
        let rest = known_resources(data.drop_last());
        if data.last() is Unknown {
            rest
        } else {
            rest.push(data.last())
        }
    }
}

impl DevicesResponse {
    pub fn errors(&self) -> (r: Vec<&HueError>)
        ensures
            r.deep_view() == self.errors.deep_view(),
    {
        let mut out: Vec<&HueError> = Vec::new();
        let mut i: usize = 0;
        while i < self.errors.len()
            invariant
                i <= self.errors.len(),
                out.deep_view() =~= self.errors.deep_view().take(i as int),
            decreases self.errors.len() - i,
        {
            out.push(&self.errors[i]);
            proof {
                assert(self.errors.deep_view().take(i + 1) =~= self.errors.deep_view().take(
                    i as int,
                ).push(self.errors@[i as int].deep_view()));
            }
            i = i + 1;
        }
        proof {
            assert(self.errors.deep_view().take(self.errors@.len() as int)
                =~= self.errors.deep_view());
        }
        out
    }

    /// The resource collection with the `Unknown` entries left out: a
    /// resource of a kind this core does not recognize is not a candidate
    /// for anything downstream.
    pub fn data(&self) -> (r: Vec<&Resource>)
        ensures
            r.deep_view() == known_resources(self.data.deep_view()),
    {
        let mut out: Vec<&Resource> = Vec::new();
        let mut i: usize = 0;
        while i < self.data.len()
            invariant
                i <= self.data.len(),
                out.deep_view() =~= known_resources(self.data.deep_view().take(i as int)),
            decreases self.data.len() - i,
        {
            let ghost prev = out.deep_view();
            let keep = match &self.data[i] {
                Resource::Unknown { .. } => false,
                _ => true,
            };
            if keep {
                out.push(&self.data[i]);
            }
            proof {
                let dv = self.data.deep_view();
                let next = dv.take(i + 1);
                assert(next.drop_last() =~= dv.take(i as int));
                assert(next.last() == self.data@[i as int].deep_view());
                if keep {
                    assert(out.deep_view() =~= prev.push(self.data@[i as int].deep_view()));
                } else {
                    assert(out.deep_view() =~= prev);
                }
                assert(out.deep_view() =~= known_resources(next));
            }
            i = i + 1;
        }
        proof {
            assert(self.data.deep_view().take(self.data@.len() as int)
                =~= self.data.deep_view());
        }
        out
    }
}

} // verus!
