//! A Boolean (on/off-style) property of a normalized device.

use vstd::prelude::*;

use crate::model::device::{Common, CommonV, PropertyType};

verus! {

#[derive(Debug)]
pub struct BooleanProperty {
    pub common: Common,
    pub value: bool,
}

pub ghost struct BooleanPropertyV {
    pub common: CommonV,
    pub value: bool,
}

impl DeepView for BooleanProperty {
    type V = BooleanPropertyV;

    open spec fn deep_view(&self) -> BooleanPropertyV {
        BooleanPropertyV { common: self.common.deep_view(), value: self.value }
    }
}

impl BooleanProperty {
    pub fn new(
        name: String,
        readonly: bool,
        property_type: PropertyType,
        external_id: Option<String>,
        value: bool,
    ) -> (r: BooleanProperty)
        ensures
            r.deep_view() == (BooleanPropertyV {
                common: CommonV {
                    name: name.deep_view(),
                    readonly,
                    property_type,
                    external_id: external_id.deep_view(),
                },
                value,
            }),
    {
        BooleanProperty { common: Common::new(name, readonly, property_type, external_id), value }
    }

    pub fn name(&self) -> (r: &String)
        ensures
            r@ == self.common.name@,
    {
        self.common.name()
    }

    pub fn readonly(&self) -> (r: bool)
        ensures
            r == self.common.readonly,
    {
        self.common.readonly()
    }

    pub fn property_type(&self) -> (r: &PropertyType)
        ensures
            *r == self.common.property_type,
    {
        self.common.property_type()
    }

    pub fn external_id(&self) -> (r: Option<&String>)
        ensures
            match r {
                Some(s) => self.common.external_id matches Some(v) && v@ == s@,
                None => self.common.external_id is None,
            },
    {
        self.common.external_id()
    }

    pub fn value(&self) -> (r: bool)
        ensures
            r == self.value,
    {
        self.value
    }
}

} // verus!
