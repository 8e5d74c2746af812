//! The physical device that holds one or more entities.

use vstd::prelude::*;

verus! {

/// Device information for Home Assistant discovery.
#[derive(Clone, Copy, Debug)]
pub struct Device<'a> {
    /// Device identifier (used in unique id generation)
    pub id: &'a str,
    /// Human-readable device name
    pub name: &'a str,
    /// Device identifiers array (contains id)
    pub identifiers: [&'a str; 1],
    /// Manufacturer name (optional)
    pub manufacturer: Option<&'a str>,
    /// Model name (optional)
    pub model: Option<&'a str>,
    /// Software version (optional)
    pub sw_version: Option<&'a str>,
}

impl<'a> Device<'a> {
    /// A device with the given id and name and no optional information.
    pub fn new(id: &'a str, name: &'a str) -> (d: Self)
        ensures
            d.id == id,
            d.name == name,
            d.identifiers@ == seq![id],
            d.manufacturer is None,
            d.model is None,
            d.sw_version is None,
    {
        Device { id, name, identifiers: [id], manufacturer: None, model: None, sw_version: None }
    }

    /// A builder for a device with the given id.
    pub fn builder(id: &'a str) -> (b: DeviceBuilder<'a>)
        ensures
            b == DeviceBuilder::spec_new(id),
    {
        DeviceBuilder::new(id)
    }
}

/// Builder for a [`Device`].
#[derive(Clone, Copy, Debug)]
pub struct DeviceBuilder<'a> {
    pub id: &'a str,
    pub name: Option<&'a str>,
    pub manufacturer: Option<&'a str>,
    pub model: Option<&'a str>,
    pub sw_version: Option<&'a str>,
}

impl<'a> DeviceBuilder<'a> {
    /// A builder with only the id set.
    pub open spec fn spec_new(id: &'a str) -> Self {
        DeviceBuilder { id, name: None, manufacturer: None, model: None, sw_version: None }
    }

    /// A builder with only the id set.
    pub fn new(id: &'a str) -> (b: Self)
        ensures
            b == Self::spec_new(id),
    {
        DeviceBuilder { id, name: None, manufacturer: None, model: None, sw_version: None }
    }

    /// Set the device name.
    pub fn name(self, name: &'a str) -> (b: Self)
        ensures
            b == (DeviceBuilder { name: Some(name), ..self }),
    {
        DeviceBuilder { name: Some(name), ..self }
    }

    /// Set the manufacturer.
    pub fn manufacturer(self, manufacturer: &'a str) -> (b: Self)
        ensures
            b == (DeviceBuilder { manufacturer: Some(manufacturer), ..self }),
    {
        DeviceBuilder { manufacturer: Some(manufacturer), ..self }
    }

    /// Set the model.
    pub fn model(self, model: &'a str) -> (b: Self)
        ensures
            b == (DeviceBuilder { model: Some(model), ..self }),
    {
        DeviceBuilder { model: Some(model), ..self }
    }

    /// Set the software version.
    pub fn sw_version(self, sw_version: &'a str) -> (b: Self)
        ensures
            b == (DeviceBuilder { sw_version: Some(sw_version), ..self }),
    {
        DeviceBuilder { sw_version: Some(sw_version), ..self }
    }

    /// Build the device; without a name the id serves as the name.
    pub fn build(self) -> (d: Device<'a>)
        ensures
            d.id == self.id,
            d.name == match self.name {
                Some(n) => n,
                None => self.id,
            },
            d.identifiers@ == seq![self.id],
            d.manufacturer == self.manufacturer,
            d.model == self.model,
            d.sw_version == self.sw_version,
    {
        Device {
            id: self.id,
            name: match self.name {
                Some(n) => n,
                None => self.id,
            },
            identifiers: [self.id],
            manufacturer: self.manufacturer,
            model: self.model,
            sw_version: self.sw_version,
        }
    }
}

} // verus!
