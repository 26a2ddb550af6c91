//! Optional property

use crate::error::Error;
use crate::unversioned::properties::format::{
    after_tag_read_len, emitted_property, parse_after_tag, write_outcome, PropertyModel,
};
use crate::unversioned::properties::property_type::EPropertyType;
use crate::unversioned::properties::laws::lemma_emitted_on_success;
use crate::unversioned::properties::UsmapPropertyData;
use crate::unversioned::usmap_reader::UsmapReader;
use crate::unversioned::usmap_writer::UsmapWriter;
use vstd::prelude::*;

verus! {

/// Optional property data
#[derive(Debug, PartialEq, Eq, Hash)]
pub struct UsmapOptionalPropertyData {
    /// Inner optional type
    pub inner_type: Box<UsmapPropertyData>,
}

impl Clone for UsmapOptionalPropertyData {
    fn clone(&self) -> (r: Self)
        ensures
            r@ == self@,
    {
        UsmapOptionalPropertyData { inner_type: Box::new(self.inner_type.clone_tree()) }
    }
}

impl View for UsmapOptionalPropertyData {
    type V = PropertyModel;

    open spec fn view(&self) -> PropertyModel {
        PropertyModel::OptionalOf(Box::new(self.inner_type.model()))
    }
}

impl UsmapOptionalPropertyData {
    /// Read a `UsmapOptionalPropertyData` from an asset: the inner type that follows the
    /// optional tag.
    pub fn new(asset: &mut UsmapReader) -> (r: Result<Self, Error>)
        ensures
            final(asset).data() == old(asset).data(),
            final(asset).names() == old(asset).names(),
            final(asset).pos() == old(asset).pos() + after_tag_read_len(
                old(asset).names(),
                EPropertyType::OptionalProperty,
                old(asset).remaining(),
            ),
            final(asset).remaining() == old(asset).remaining().skip(
                after_tag_read_len(old(asset).names(), EPropertyType::OptionalProperty, old(asset).remaining())
                    as int,
            ),
            match parse_after_tag(old(asset).names(), EPropertyType::OptionalProperty, old(asset).remaining()) {
                Ok((m, n)) => r matches Ok(v) && v@ == m && final(asset).pos() == old(asset).pos() + n,
                Err(e) => r == Err::<Self, Error>(e),
            },
        decreases old(asset).remaining().len(), 1nat,
    {
        let inner_type = UsmapPropertyData::new(asset)?;
        Ok(UsmapOptionalPropertyData { inner_type: Box::new(inner_type) })
    }

    /// Write this property type: the optional tag, then the inner type.
    /// Returns the number of bytes written.
    pub fn write(&self, asset: &mut UsmapWriter) -> (r: Result<usize, Error>)
        ensures
            final(asset).names() == old(asset).names(),
            write_outcome(old(asset).bytes(), final(asset).bytes(), old(asset).names(), self@, r),
        decreases self,
    {
        let ghost before = asset.bytes();
        let tag = EPropertyType::OptionalProperty.code();
        asset.write_u8(tag);
        let r = self.inner_type.write(asset);
        proof {
            asset.lemma_bytes_fit();
            let inner = emitted_property(asset.names(), self.inner_type.model());
            assert(asset.bytes() =~= before + (seq![tag] + inner));
            lemma_emitted_on_success(asset.names(), self.inner_type.model());
        }
        match r {
            Ok(size) => Ok(size + 1),
            Err(e) => Err(e),
        }
    }

    /// The type tag: `OptionalProperty`.
    pub fn get_property_type(&self) -> (t: EPropertyType)
        ensures
            t == EPropertyType::OptionalProperty,
            t == self@.property_type(),
    {
        EPropertyType::OptionalProperty
    }
}

} // verus!
