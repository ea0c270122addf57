//! A numeric property of a normalized device, with unit and optional range.

use vstd::prelude::*;

use crate::model::device::{Common, CommonV, PropertyType};

verus! {

/// The unit of a numeric property.
#[derive(Clone, Copy, Debug, PartialEq, Eq, Structural)]
pub enum Unit {
    Percentage,
    Lumen,
    Celcius,
    Kelvin,
}

impl DeepView for Unit {
    type V = Unit;

    open spec fn deep_view(&self) -> Unit {
        *self
    }
}

#[derive(Debug)]
pub struct NumberProperty {
    pub common: Common,
    pub unit: Unit,
    pub value: Option<usize>,
    pub minimum: Option<usize>,
    pub maximum: Option<usize>,
}

pub ghost struct NumberPropertyV {
    pub common: CommonV,
    pub unit: Unit,
    pub value: Option<usize>,
    pub minimum: Option<usize>,
    pub maximum: Option<usize>,
}

impl DeepView for NumberProperty {
    type V = NumberPropertyV;

    open spec fn deep_view(&self) -> NumberPropertyV {
        NumberPropertyV {
            common: self.common.deep_view(),
            unit: self.unit,
            value: self.value,
            minimum: self.minimum,
            maximum: self.maximum,
        }
    }
}

impl NumberProperty {
    pub fn new(
        name: String,
        readonly: bool,
        property_type: PropertyType,
        external_id: Option<String>,
        unit: Unit,
        value: Option<usize>,
        minimum: Option<usize>,
        maximum: Option<usize>,
    ) -> (r: NumberProperty)
        ensures
            r.deep_view() == (NumberPropertyV {
                common: CommonV {
                    name: name.deep_view(),
                    readonly,
                    property_type,
                    external_id: external_id.deep_view(),
                },
                unit,
                value,
                minimum,
                maximum,
            }),
    {
        NumberProperty {
            common: Common::new(name, readonly, property_type, external_id),
            unit,
            value,
            minimum,
            maximum,
        }
    }

    pub fn name(&self) -> (r: &String)
        ensures
            r@ == self.common.name@,
    {
        self.common.name()
    }

    pub fn readonly(&self) -> (r: bool)
        ensures
            r == self.common.readonly,
    {
        self.common.readonly()
    }

    pub fn property_type(&self) -> (r: &PropertyType)
        ensures
            *r == self.common.property_type,
    {
        self.common.property_type()
    }

    pub fn external_id(&self) -> (r: Option<&String>)
        ensures
            match r {
                Some(s) => self.common.external_id matches Some(v) && v@ == s@,
                None => self.common.external_id is None,
            },
    {
        self.common.external_id()
    }

    pub fn unit(&self) -> (r: &Unit)
        ensures
            *r == self.unit,
    {
        &self.unit
    }

    pub fn value(&self) -> (r: Option<usize>)
        ensures
            r == self.value,
    {
        self.value
    }

    pub fn minimum(&self) -> (r: Option<usize>)
        ensures
            r == self.minimum,
    {
        self.minimum
    }

    pub fn maximum(&self) -> (r: Option<usize>)
        ensures
            r == self.maximum,
    {
        self.maximum
    }
}

} // verus!
