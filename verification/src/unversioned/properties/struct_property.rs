//! Struct property

use crate::error::Error;
use crate::unversioned::properties::format::{
    after_tag_read_len, bytes_or_empty, emitted_property, parse_after_tag, serialize_name,
    serialize_property, write_outcome, PropertyModel,
};
use crate::unversioned::properties::laws::lemma_name_roundtrip;
use crate::unversioned::properties::property_type::EPropertyType;
use crate::unversioned::usmap_reader::UsmapReader;
use crate::unversioned::usmap_writer::UsmapWriter;
use vstd::prelude::*;

verus! {

/// Struct property data
#[derive(Debug, PartialEq, Eq, Hash)]
pub struct UsmapStructPropertyData {
    /// Name of the struct type
    pub struct_type: String,
}

impl Clone for UsmapStructPropertyData {
    fn clone(&self) -> (r: Self)
        ensures
            r@ == self@,
    {
        UsmapStructPropertyData { struct_type: self.struct_type.clone() }
    }
}

impl View for UsmapStructPropertyData {
    type V = PropertyModel;

    open spec fn view(&self) -> PropertyModel {
        PropertyModel::Struct { struct_type: self.struct_type@ }
    }
}

impl UsmapStructPropertyData {
    /// Read a `UsmapStructPropertyData` from an asset: the struct type's name.
    pub fn new(asset: &mut UsmapReader) -> (r: Result<Self, Error>)
        ensures
            final(asset).data() == old(asset).data(),
            final(asset).names() == old(asset).names(),
            final(asset).pos() == old(asset).pos() + after_tag_read_len(
                old(asset).names(),
                EPropertyType::StructProperty,
                old(asset).remaining(),
            ),
            final(asset).remaining() == old(asset).remaining().skip(
                after_tag_read_len(old(asset).names(), EPropertyType::StructProperty, old(asset).remaining())
                    as int,
            ),
            match parse_after_tag(old(asset).names(), EPropertyType::StructProperty, old(asset).remaining()) {
                Ok((m, n)) => r matches Ok(v) && v@ == m && final(asset).pos() == old(asset).pos() + n,
                Err(e) => r == Err::<Self, Error>(e),
            },
    {
        let struct_type = asset.read_name()?;

        Ok(UsmapStructPropertyData { struct_type })
    }

    /// Write this property type: the struct tag, then the struct type's name.
    /// Returns the number of bytes written.
    pub fn write(&self, asset: &mut UsmapWriter) -> (r: Result<usize, Error>)
        ensures
            final(asset).names() == old(asset).names(),
            write_outcome(old(asset).bytes(), final(asset).bytes(), old(asset).names(), self@, r),
    {
        let ghost before = asset.bytes();
        let tag = EPropertyType::StructProperty.code();
        asset.write_u8(tag);
        let named = asset.write_name(&self.struct_type);
        proof {
            let names = asset.names();
            let name_bytes = bytes_or_empty(serialize_name(names, self.struct_type@));
            if serialize_name(names, self.struct_type@) is Ok {
                lemma_name_roundtrip(names, self.struct_type@, Seq::empty());
            }
            assert(asset.bytes() =~= before + (seq![tag] + name_bytes));
        }
        match named {
            Ok(()) => Ok(1 + 4),
            Err(e) => Err(e),
        }
    }

    /// The type tag: `StructProperty`.
    pub fn get_property_type(&self) -> (t: EPropertyType)
        ensures
            t == EPropertyType::StructProperty,
            t == self@.property_type(),
    {
        EPropertyType::StructProperty
    }
}

} // verus!
