//! The normalized output entities: a generic device with a map of named
//! properties, independent of the bridge's resource kinds.

use vstd::prelude::*;

use crate::model::property_map::PropertyMap;
use crate::model::{BooleanProperty, BooleanPropertyV, NumberProperty, NumberPropertyV};

verus! {

/// What kind of device a normalized device is.
#[derive(Clone, Copy, Debug, PartialEq, Eq, Structural)]
pub enum DeviceType {
    Light,
}

impl DeepView for DeviceType {
    type V = DeviceType;

    open spec fn deep_view(&self) -> DeviceType {
        *self
    }
}

/// What a property measures or switches.
#[derive(Clone, Copy, Debug, PartialEq, Eq, Structural)]
pub enum PropertyType {
    BatteryLevel,
    Brightness,
    Button,
    Color,
    ColorTemperature,
    LightLevel,
    Motion,
    On,
    Temperature,
}

impl DeepView for PropertyType {
    type V = PropertyType;

    open spec fn deep_view(&self) -> PropertyType {
        *self
    }
}

/// The metadata every property carries.
#[derive(Debug)]
pub struct Common {
    pub name: String,
    pub readonly: bool,
    pub property_type: PropertyType,
    pub external_id: Option<String>,
}

pub ghost struct CommonV {
    pub name: Seq<char>,
    pub readonly: bool,
    pub property_type: PropertyType,
    pub external_id: Option<Seq<char>>,
}

impl DeepView for Common {
    type V = CommonV;

    open spec fn deep_view(&self) -> CommonV {
        CommonV {
            name: self.name.deep_view(),
            readonly: self.readonly,
            property_type: self.property_type,
            external_id: self.external_id.deep_view(),
        }
    }
}

impl Common {
    pub fn new(
        name: String,
        readonly: bool,
        property_type: PropertyType,
        external_id: Option<String>,
    ) -> (r: Common)
        ensures
            r.deep_view() == (CommonV {
                name: name.deep_view(),
                readonly,
                property_type,
                external_id: external_id.deep_view(),
            }),
    {
        Common { name, readonly, property_type, external_id }
    }

    pub fn name(&self) -> (r: &String)
        ensures
            r@ == self.name@,
    {
        &self.name
    }

    pub fn readonly(&self) -> (r: bool)
        ensures
            r == self.readonly,
    {
        self.readonly
    }

    pub fn property_type(&self) -> (r: &PropertyType)
        ensures
            *r == self.property_type,
    {
        &self.property_type
    }

    pub fn external_id(&self) -> (r: Option<&String>)
        ensures
            match r {
                Some(s) => self.external_id matches Some(v) && v@ == s@,
                None => self.external_id is None,
            },
    {
        self.external_id.as_ref()
    }
}

/// A property value: a switch or a number.
#[derive(Debug)]
pub enum Property {
    Boolean(BooleanProperty),
    Number(NumberProperty),
}

pub ghost enum PropertyV {
    Boolean(BooleanPropertyV),
    Number(NumberPropertyV),
}

impl DeepView for Property {
    type V = PropertyV;

    open spec fn deep_view(&self) -> PropertyV {
        match self {
            Property::Boolean(b) => PropertyV::Boolean(b.deep_view()),
            Property::Number(n) => PropertyV::Number(n.deep_view()),
        }
    }
}

/// A normalized device: identity and naming copied from the source device
/// resource, plus the properties folded out of its services. Constructed
/// once per resolution pass and immutable thereafter.
#[derive(Debug)]
pub struct Device {
    pub id: String,
    pub device_type: DeviceType,
    pub manufacturer: String,
    pub model_id: String,
    pub product_name: String,
    pub name: String,
    pub properties: PropertyMap,
    pub external_id: Option<String>,
}

pub ghost struct DeviceV {
    pub id: Seq<char>,
    pub device_type: DeviceType,
    pub manufacturer: Seq<char>,
    pub model_id: Seq<char>,
    pub product_name: Seq<char>,
    pub name: Seq<char>,
    pub properties: Map<Seq<char>, PropertyV>,
    pub external_id: Option<Seq<char>>,
}

impl DeepView for Device {
    type V = DeviceV;

    open spec fn deep_view(&self) -> DeviceV {
        DeviceV {
            id: self.id.deep_view(),
            device_type: self.device_type,
            manufacturer: self.manufacturer.deep_view(),
            model_id: self.model_id.deep_view(),
            product_name: self.product_name.deep_view(),
            name: self.name.deep_view(),
            properties: self.properties@,
            external_id: self.external_id.deep_view(),
        }
    }
}

impl Device {
    pub fn new(
        id: String,
        device_type: DeviceType,
        manufacturer: String,
        model_id: String,
        product_name: String,
        name: String,
        properties: PropertyMap,
        external_id: Option<String>,
    ) -> (r: Device)
        ensures
            r.deep_view() == (DeviceV {
                id: id.deep_view(),
                device_type,
                manufacturer: manufacturer.deep_view(),
                model_id: model_id.deep_view(),
                product_name: product_name.deep_view(),
                name: name.deep_view(),
                properties: properties@,
                external_id: external_id.deep_view(),
            }),
    {
        Device {
            id,
            device_type,
            manufacturer,
            model_id,
            product_name,
            name,
            properties,
            external_id,
        }
    }

    pub fn id(&self) -> (r: &String)
        ensures
            r@ == self.id@,
    {
        &self.id
    }

    pub fn device_type(&self) -> (r: &DeviceType)
        ensures
            *r == self.device_type,
    {
        &self.device_type
    }

    pub fn manufacturer(&self) -> (r: &String)
        ensures
            r@ == self.manufacturer@,
    {
        &self.manufacturer
    }

    pub fn model_id(&self) -> (r: &String)
        ensures
            r@ == self.model_id@,
    {
        &self.model_id
    }

    pub fn product_name(&self) -> (r: &String)
        ensures
            r@ == self.product_name@,
    {
        &self.product_name
    }

    pub fn name(&self) -> (r: &String)
        ensures
            r@ == self.name@,
    {
        &self.name
    }

    pub fn properties(&self) -> (r: &PropertyMap)
        ensures
            r@ == self.properties@,
    {
        &self.properties
    }

    pub fn external_id(&self) -> (r: Option<&String>)
        ensures
            match r {
                Some(s) => self.external_id matches Some(v) && v@ == s@,
                None => self.external_id is None,
            },
    {
        self.external_id.as_ref()
    }
}

} // verus!
