mod boolean_property;
mod device;
mod number_property;
mod property_map;

pub use boolean_property::BooleanProperty;
pub use boolean_property::BooleanPropertyV;
pub use device::Common;
pub use device::CommonV;
pub use device::Device;
pub use device::DeviceType;
pub use device::DeviceV;
pub use device::Property;
pub use device::PropertyType;
pub use device::PropertyV;
pub use number_property::NumberProperty;
pub use number_property::NumberPropertyV;
pub use number_property::Unit;

pub use property_map::PropertyMap;
