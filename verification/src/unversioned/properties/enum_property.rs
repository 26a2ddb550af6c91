//! Enum property

use crate::error::Error;
use crate::unversioned::properties::format::{
    after_tag_read_len, bytes_or_empty, emitted_property, parse_after_tag, serialize_name,
    serialize_property, write_outcome, PropertyModel,
};
use crate::unversioned::properties::laws::{
    lemma_emitted_on_success, lemma_name_roundtrip, lemma_parse_consumes,
};
use crate::unversioned::properties::property_type::EPropertyType;
use crate::unversioned::properties::UsmapPropertyData;
use crate::unversioned::usmap_reader::UsmapReader;
use crate::unversioned::usmap_writer::UsmapWriter;
use vstd::prelude::*;

verus! {

/// Enum property data
#[derive(Debug, PartialEq, Eq, Hash)]
pub struct UsmapEnumPropertyData {
    /// Type of the enum's underlying value
    pub inner_property: Box<UsmapPropertyData>,
    /// Name of the enum
    pub name: String,
}

impl Clone for UsmapEnumPropertyData {
    fn clone(&self) -> (r: Self)
        ensures
            r@ == self@,
    {
        UsmapEnumPropertyData {
            inner_property: Box::new(self.inner_property.clone_tree()),
            name: self.name.clone(),
        }
    }
}

impl View for UsmapEnumPropertyData {
    type V = PropertyModel;

    open spec fn view(&self) -> PropertyModel {
        PropertyModel::Enum { inner: Box::new(self.inner_property.model()), name: self.name@ }
    }
}

impl UsmapEnumPropertyData {
    /// Read a `UsmapEnumPropertyData` from an asset: the underlying value's
    /// type, then the enum's name.
    pub fn new(asset: &mut UsmapReader) -> (r: Result<Self, Error>)
        ensures
            final(asset).data() == old(asset).data(),
            final(asset).names() == old(asset).names(),
            final(asset).pos() == old(asset).pos() + after_tag_read_len(
                old(asset).names(),
                EPropertyType::EnumProperty,
                old(asset).remaining(),
            ),
            final(asset).remaining() == old(asset).remaining().skip(
                after_tag_read_len(old(asset).names(), EPropertyType::EnumProperty, old(asset).remaining())
                    as int,
            ),
            match parse_after_tag(old(asset).names(), EPropertyType::EnumProperty, old(asset).remaining()) {
                Ok((m, n)) => r matches Ok(v) && v@ == m && final(asset).pos() == old(asset).pos() + n,
                Err(e) => r == Err::<Self, Error>(e),
            },
        decreases old(asset).remaining().len(), 1nat,
    {
        let ghost start = asset.remaining();
        let inner_property = UsmapPropertyData::new(asset)?;
        proof {
            lemma_parse_consumes(asset.names(), start);
        }
        let ghost after_inner = asset.remaining();
        let name = asset.read_name()?;
        proof {
            let n = start.len() - after_inner.len();
            assert(after_inner.skip(4) =~= start.skip(n + 4));
        }

        Ok(UsmapEnumPropertyData { inner_property: Box::new(inner_property), name })
    }

    /// Write this property type: the enum tag, the underlying value's type,
    /// then the enum's name. Returns the number of bytes written.
    pub fn write(&self, asset: &mut UsmapWriter) -> (r: Result<usize, Error>)
        ensures
            final(asset).names() == old(asset).names(),
            write_outcome(old(asset).bytes(), final(asset).bytes(), old(asset).names(), self@, r),
        decreases self,
    {
        let ghost before = asset.bytes();
        let ghost names = asset.names();
        let tag = EPropertyType::EnumProperty.code();
        asset.write_u8(tag);
        let inner = self.inner_property.write(asset);
        let ghost inner_bytes = emitted_property(names, self.inner_property.model());
        let size = match inner {
            Ok(size) => size,
            Err(e) => {
                assert(asset.bytes() =~= before + (seq![tag] + inner_bytes + Seq::<u8>::empty()));
                return Err(e);
            },
        };
        let named = asset.write_name(&self.name);
        proof {
            asset.lemma_bytes_fit();
            let name_bytes = bytes_or_empty(serialize_name(names, self.name@));
            assert(asset.bytes() =~= before + (seq![tag] + inner_bytes + name_bytes));
            lemma_emitted_on_success(names, self.inner_property.model());
            if serialize_name(names, self.name@) is Ok {
                lemma_name_roundtrip(names, self.name@, Seq::empty());
            }
        }
        match named {
            Ok(()) => Ok(size + 1 + 4),
            Err(e) => Err(e),
        }
    }

    /// The type tag: `EnumProperty`.
    pub fn get_property_type(&self) -> (t: EPropertyType)
        ensures
            t == EPropertyType::EnumProperty,
            t == self@.property_type(),
    {
        EPropertyType::EnumProperty
    }
}

} // verus!
