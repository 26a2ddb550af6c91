//! Map property

use crate::error::Error;
use crate::unversioned::properties::format::{
    after_tag_read_len, emitted_property, parse_after_tag, read_len, write_outcome, PropertyModel,
};
use crate::unversioned::properties::laws::{
    lemma_emitted_on_success, lemma_parse_consumes, lemma_read_len,
};
use crate::unversioned::properties::property_type::EPropertyType;
use crate::unversioned::properties::UsmapPropertyData;
use crate::unversioned::usmap_reader::UsmapReader;
use crate::unversioned::usmap_writer::UsmapWriter;
use vstd::prelude::*;

verus! {

/// Map property data
#[derive(Debug, PartialEq, Eq, Hash)]
pub struct UsmapMapPropertyData {
    /// Key type
    pub inner_type: Box<UsmapPropertyData>,
    /// Value type
    pub value_type: Box<UsmapPropertyData>,
}

impl Clone for UsmapMapPropertyData {
    fn clone(&self) -> (r: Self)
        ensures
            r@ == self@,
    {
        UsmapMapPropertyData {
            inner_type: Box::new(self.inner_type.clone_tree()),
            value_type: Box::new(self.value_type.clone_tree()),
        }
    }
}

impl View for UsmapMapPropertyData {
    type V = PropertyModel;

    open spec fn view(&self) -> PropertyModel {
        PropertyModel::MapOf {
            key: Box::new(self.inner_type.model()),
            value: Box::new(self.value_type.model()),
        }
    }
}

impl UsmapMapPropertyData {
    /// Read a `UsmapMapPropertyData` from an asset: the key type, then the
    /// value type.
    pub fn new(asset: &mut UsmapReader) -> (r: Result<Self, Error>)
        ensures
            final(asset).data() == old(asset).data(),
            final(asset).names() == old(asset).names(),
            final(asset).pos() == old(asset).pos() + after_tag_read_len(
                old(asset).names(),
                EPropertyType::MapProperty,
                old(asset).remaining(),
            ),
            final(asset).remaining() == old(asset).remaining().skip(
                after_tag_read_len(old(asset).names(), EPropertyType::MapProperty, old(asset).remaining())
                    as int,
            ),
            match parse_after_tag(old(asset).names(), EPropertyType::MapProperty, old(asset).remaining()) {
                Ok((m, n)) => r matches Ok(v) && v@ == m && final(asset).pos() == old(asset).pos() + n,
                Err(e) => r == Err::<Self, Error>(e),
            },
        decreases old(asset).remaining().len(), 1nat,
    {
        let ghost start = asset.remaining();
        let inner_type = UsmapPropertyData::new(asset)?;
        proof {
            lemma_parse_consumes(asset.names(), start);
        }
        let ghost after_key = asset.remaining();
        let value = UsmapPropertyData::new(asset);
        proof {
            lemma_read_len(asset.names(), after_key);
            let n = start.len() - after_key.len();
            let k = read_len(asset.names(), after_key);
            assert(after_key.skip(k as int) =~= start.skip(n + k));
        }
        let value_type = match value {
            Ok(v) => v,
            Err(e) => return Err(e),
        };

        Ok(UsmapMapPropertyData { inner_type: Box::new(inner_type), value_type: Box::new(value_type) })
    }

    /// Write this property type: the map tag, the key type, then the value
    /// type. Returns the number of bytes written.
    pub fn write(&self, asset: &mut UsmapWriter) -> (r: Result<usize, Error>)
        ensures
            final(asset).names() == old(asset).names(),
            write_outcome(old(asset).bytes(), final(asset).bytes(), old(asset).names(), self@, r),
        decreases self,
    {
        let ghost before = asset.bytes();
        let ghost names = asset.names();
        let tag = EPropertyType::MapProperty.code();
        asset.write_u8(tag);
        let key = self.inner_type.write(asset);
        let ghost key_bytes = emitted_property(names, self.inner_type.model());
        let key_size = match key {
            Ok(size) => size,
            Err(e) => {
                assert(asset.bytes() =~= before + (seq![tag] + key_bytes + Seq::<u8>::empty()));
                return Err(e);
            },
        };
        let value = self.value_type.write(asset);
        proof {
            asset.lemma_bytes_fit();
            let value_bytes = emitted_property(names, self.value_type.model());
            assert(asset.bytes() =~= before + (seq![tag] + key_bytes + value_bytes));
            lemma_emitted_on_success(names, self.inner_type.model());
            lemma_emitted_on_success(names, self.value_type.model());
        }
        match value {
            Ok(value_size) => Ok(1 + key_size + value_size),
            Err(e) => Err(e),
        }
    }

    /// The type tag: `MapProperty`.
    pub fn get_property_type(&self) -> (t: EPropertyType)
        ensures
            t == EPropertyType::MapProperty,
            t == self@.property_type(),
    {
        EPropertyType::MapProperty
    }
}

} // verus!
