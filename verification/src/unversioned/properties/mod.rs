//! Usmap property types: the type tree a usmap schema gives each property,
//! read from and written to its byte encoding.

pub mod array_property;
pub mod encoding_laws;
pub mod enum_property;
pub mod format;
pub mod laws;
pub mod map_property;
pub mod optional_property;
pub mod property_type;
pub mod set_property;
pub mod shallow_property;
pub mod struct_property;

pub use array_property::UsmapArrayPropertyData;
pub use enum_property::UsmapEnumPropertyData;
pub use map_property::UsmapMapPropertyData;
pub use optional_property::UsmapOptionalPropertyData;
pub use property_type::EPropertyType;
pub use set_property::UsmapSetPropertyData;
pub use shallow_property::UsmapShallowPropertyData;
pub use struct_property::UsmapStructPropertyData;

use crate::error::Error;
use crate::unversioned::properties::format::{
    after_tag_read_len, parse_after_tag, parse_property, read_len, write_outcome, PropertyModel,
};
use crate::unversioned::properties::laws::lemma_after_tag_read_len;
use crate::unversioned::usmap_reader::UsmapReader;
use crate::unversioned::usmap_writer::UsmapWriter;
use vstd::prelude::*;

verus! {

/// The type of a usmap property, as a tree.
#[derive(Debug, PartialEq, Eq, Hash)]
pub enum UsmapPropertyData {
    /// An enum property.
    UsmapEnumPropertyData(UsmapEnumPropertyData),
    /// A struct property.
    UsmapStructPropertyData(UsmapStructPropertyData),
    /// A set property.
    UsmapSetPropertyData(UsmapSetPropertyData),
    /// An array property.
    UsmapArrayPropertyData(UsmapArrayPropertyData),
    /// A map property.
    UsmapMapPropertyData(UsmapMapPropertyData),
    /// An optional property.
    UsmapOptionalPropertyData(UsmapOptionalPropertyData),
    /// Any other property: the tag says it all.
    UsmapShallowPropertyData(UsmapShallowPropertyData),
}

impl UsmapPropertyData {
    /// The mathematical value of this property type.
    pub open spec fn model(&self) -> PropertyModel
        decreases self,
    {
        match self {
            UsmapPropertyData::UsmapEnumPropertyData(d) => PropertyModel::Enum {
                inner: Box::new(d.inner_property.model()),
                name: d.name@,
            },
            UsmapPropertyData::UsmapStructPropertyData(d) => PropertyModel::Struct {
                struct_type: d.struct_type@,
            },
            UsmapPropertyData::UsmapSetPropertyData(d) => PropertyModel::SetOf(
                Box::new(d.inner_type.model()),
            ),
            UsmapPropertyData::UsmapArrayPropertyData(d) => PropertyModel::ArrayOf(
                Box::new(d.inner_type.model()),
            ),
            UsmapPropertyData::UsmapMapPropertyData(d) => PropertyModel::MapOf {
                key: Box::new(d.inner_type.model()),
                value: Box::new(d.value_type.model()),
            },
            UsmapPropertyData::UsmapOptionalPropertyData(d) => PropertyModel::OptionalOf(
                Box::new(d.inner_type.model()),
            ),
            UsmapPropertyData::UsmapShallowPropertyData(d) => PropertyModel::Shallow(
                d.property_type,
            ),
        }
    }

    /// Reads a property type: its tag byte, then what the tag implies.
    ///
    /// On success the reader has moved past exactly the bytes of the property
    /// type; on failure the error is the first one met in reading order.
    pub fn new(asset: &mut UsmapReader) -> (r: Result<Self, Error>)
        ensures
            final(asset).data() == old(asset).data(),
            final(asset).names() == old(asset).names(),
            final(asset).pos() == old(asset).pos() + read_len(old(asset).names(), old(asset).remaining()),
            final(asset).remaining() == old(asset).remaining().skip(
                read_len(old(asset).names(), old(asset).remaining()) as int,
            ),
            match parse_property(old(asset).names(), old(asset).remaining()) {
                Ok((m, n)) => r matches Ok(v) && v@ == m && final(asset).pos() == old(asset).pos() + n,
                Err(e) => r == Err::<Self, Error>(e),
            },
        decreases old(asset).remaining().len(), 0nat,
    {
        let tag = asset.read_u8()?;
        let property_type = match EPropertyType::from_code(tag) {
            Some(t) => t,
            None => return Err(Error::InvalidPropertyType(tag)),
        };
        let ghost rest = asset.remaining();
        let ghost names = asset.names();
        let r = match property_type {
            EPropertyType::EnumProperty => match UsmapEnumPropertyData::new(asset) {
                Ok(d) => Ok(UsmapPropertyData::UsmapEnumPropertyData(d)),
                Err(e) => Err(e),
            },
            EPropertyType::StructProperty => match UsmapStructPropertyData::new(asset) {
                Ok(d) => Ok(UsmapPropertyData::UsmapStructPropertyData(d)),
                Err(e) => Err(e),
            },
            EPropertyType::SetProperty => match UsmapSetPropertyData::new(asset) {
                Ok(d) => Ok(UsmapPropertyData::UsmapSetPropertyData(d)),
                Err(e) => Err(e),
            },
            EPropertyType::ArrayProperty => match UsmapArrayPropertyData::new(asset) {
                Ok(d) => Ok(UsmapPropertyData::UsmapArrayPropertyData(d)),
                Err(e) => Err(e),
            },
            EPropertyType::MapProperty => match UsmapMapPropertyData::new(asset) {
                Ok(d) => Ok(UsmapPropertyData::UsmapMapPropertyData(d)),
                Err(e) => Err(e),
            },
            EPropertyType::OptionalProperty => match UsmapOptionalPropertyData::new(asset) {
                Ok(d) => Ok(UsmapPropertyData::UsmapOptionalPropertyData(d)),
                Err(e) => Err(e),
            },
            _ => {
                assert(rest.skip(0) =~= rest);
                Ok(UsmapPropertyData::UsmapShallowPropertyData(UsmapShallowPropertyData { property_type }))
            },
        };
        proof {
            lemma_after_tag_read_len(names, property_type, rest);
            let k = after_tag_read_len(names, property_type, rest);
            assert(old(asset).remaining().skip(k + 1int) =~= rest.skip(k as int));
        }
        r
    }

    /// Writes this property type: its tag byte, then what the tag implies.
    /// Returns the number of bytes written.
    pub fn write(&self, asset: &mut UsmapWriter) -> (r: Result<usize, Error>)
        ensures
            final(asset).names() == old(asset).names(),
            write_outcome(old(asset).bytes(), final(asset).bytes(), old(asset).names(), self@, r),
        decreases self,
    {
        match self {
            UsmapPropertyData::UsmapEnumPropertyData(d) => d.write(asset),
            UsmapPropertyData::UsmapStructPropertyData(d) => d.write(asset),
            UsmapPropertyData::UsmapSetPropertyData(d) => d.write(asset),
            UsmapPropertyData::UsmapArrayPropertyData(d) => d.write(asset),
            UsmapPropertyData::UsmapMapPropertyData(d) => d.write(asset),
            UsmapPropertyData::UsmapOptionalPropertyData(d) => d.write(asset),
            UsmapPropertyData::UsmapShallowPropertyData(d) => d.write(asset),
        }
    }

    /// The type tag of this property type.
    pub fn get_property_type(&self) -> (t: EPropertyType)
        ensures
            t == self@.property_type(),
    {
        match self {
            UsmapPropertyData::UsmapEnumPropertyData(d) => d.get_property_type(),
            UsmapPropertyData::UsmapStructPropertyData(d) => d.get_property_type(),
            UsmapPropertyData::UsmapSetPropertyData(d) => d.get_property_type(),
            UsmapPropertyData::UsmapArrayPropertyData(d) => d.get_property_type(),
            UsmapPropertyData::UsmapMapPropertyData(d) => d.get_property_type(),
            UsmapPropertyData::UsmapOptionalPropertyData(d) => d.get_property_type(),
            UsmapPropertyData::UsmapShallowPropertyData(d) => d.get_property_type(),
        }
    }
}

impl UsmapPropertyData {
    /// A copy of the whole tree.
    pub(crate) fn clone_tree(&self) -> (r: Self)
        ensures
            r@ == self@,
        decreases self,
    {
        match self {
            UsmapPropertyData::UsmapEnumPropertyData(d) => UsmapPropertyData::UsmapEnumPropertyData(
                UsmapEnumPropertyData {
                    inner_property: Box::new(d.inner_property.clone_tree()),
                    name: d.name.clone(),
                },
            ),
            UsmapPropertyData::UsmapStructPropertyData(d) => UsmapPropertyData::UsmapStructPropertyData(
                UsmapStructPropertyData { struct_type: d.struct_type.clone() },
            ),
            UsmapPropertyData::UsmapSetPropertyData(d) => UsmapPropertyData::UsmapSetPropertyData(
                UsmapSetPropertyData { inner_type: Box::new(d.inner_type.clone_tree()) },
            ),
            UsmapPropertyData::UsmapArrayPropertyData(d) => UsmapPropertyData::UsmapArrayPropertyData(
                UsmapArrayPropertyData { inner_type: Box::new(d.inner_type.clone_tree()) },
            ),
            UsmapPropertyData::UsmapMapPropertyData(d) => UsmapPropertyData::UsmapMapPropertyData(
                UsmapMapPropertyData {
                    inner_type: Box::new(d.inner_type.clone_tree()),
                    value_type: Box::new(d.value_type.clone_tree()),
                },
            ),
            UsmapPropertyData::UsmapOptionalPropertyData(d) => UsmapPropertyData::UsmapOptionalPropertyData(
                UsmapOptionalPropertyData { inner_type: Box::new(d.inner_type.clone_tree()) },
            ),
            UsmapPropertyData::UsmapShallowPropertyData(d) => UsmapPropertyData::UsmapShallowPropertyData(
                UsmapShallowPropertyData { property_type: d.property_type },
            ),
        }
    }
}

impl Clone for UsmapPropertyData {
    fn clone(&self) -> (r: Self)
        ensures
            r@ == self@,
    {
        self.clone_tree()
    }
}

impl View for UsmapPropertyData {
    type V = PropertyModel;

    open spec fn view(&self) -> PropertyModel {
        self.model()
    }
}

/// The value of a property type is made of its fields, and each kind's own
/// data has the same value: a map's key is its `inner_type` and its value
/// its `value_type`; an array's, set's or optional's inner type is its
/// `inner_type`; an enum's underlying type is `inner_property` and its name
/// `name`; a struct's type name is `struct_type`; a shallow type is its
/// `property_type`.
pub proof fn lemma_model_fields(d: UsmapPropertyData)
    ensures
        match d {
            UsmapPropertyData::UsmapEnumPropertyData(x) => d@ == x@ && d@ == PropertyModel::Enum {
                inner: Box::new(x.inner_property@),
                name: x.name@,
            },
            UsmapPropertyData::UsmapStructPropertyData(x) => d@ == x@ && d@ == PropertyModel::Struct {
                struct_type: x.struct_type@,
            },
            UsmapPropertyData::UsmapSetPropertyData(x) => d@ == x@ && d@ == PropertyModel::SetOf(
                Box::new(x.inner_type@),
            ),
            UsmapPropertyData::UsmapArrayPropertyData(x) => d@ == x@ && d@ == PropertyModel::ArrayOf(
                Box::new(x.inner_type@),
            ),
            UsmapPropertyData::UsmapMapPropertyData(x) => d@ == x@ && d@ == PropertyModel::MapOf {
                key: Box::new(x.inner_type@),
                value: Box::new(x.value_type@),
            },
            UsmapPropertyData::UsmapOptionalPropertyData(x) => d@ == x@ && d@
                == PropertyModel::OptionalOf(Box::new(x.inner_type@)),
            UsmapPropertyData::UsmapShallowPropertyData(x) => d@ == x@ && d@ == PropertyModel::Shallow(
                x.property_type,
            ),
        },
{
}

} // verus!
