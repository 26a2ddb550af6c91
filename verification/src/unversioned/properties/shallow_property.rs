//! Shallow property: a type that carries nothing beyond its tag

use crate::error::Error;
use crate::unversioned::properties::format::{write_outcome, PropertyModel};
use crate::unversioned::properties::property_type::EPropertyType;
use crate::unversioned::usmap_writer::UsmapWriter;
use vstd::prelude::*;

verus! {

/// Shallow property data
#[derive(Debug, PartialEq, Eq, Hash)]
pub struct UsmapShallowPropertyData {
    /// Property type
    pub property_type: EPropertyType,
}

impl Clone for UsmapShallowPropertyData {
    fn clone(&self) -> (r: Self)
        ensures
            r@ == self@,
    {
        UsmapShallowPropertyData { property_type: self.property_type }
    }
}

impl View for UsmapShallowPropertyData {
    type V = PropertyModel;

    open spec fn view(&self) -> PropertyModel {
        PropertyModel::Shallow(self.property_type)
    }
}

impl UsmapShallowPropertyData {
    /// Write this property type: its tag alone. Returns the number of bytes
    /// written.
    pub fn write(&self, asset: &mut UsmapWriter) -> (r: Result<usize, Error>)
        ensures
            final(asset).names() == old(asset).names(),
            write_outcome(old(asset).bytes(), final(asset).bytes(), old(asset).names(), self@, r),
    {
        let ghost before = asset.bytes();
        let tag = self.property_type.code();
        asset.write_u8(tag);
        assert(asset.bytes() =~= before + seq![tag]);
        Ok(1)
    }

    /// The type tag it holds.
    pub fn get_property_type(&self) -> (t: EPropertyType)
        ensures
            t == self.property_type,
            t == self@.property_type(),
    {
        self.property_type
    }
}

} // verus!
