//! The byte grammar of a usmap property type, as spec functions: what a
//! reader makes of bytes and what a writer makes of a property type.
//!
//! A property type is a tag byte followed by what the tag implies: one nested
//! type for an array, a set or an optional; a key type and a value type for a
//! map; a nested type followed by a name for an enum; a name for a struct; and
//! nothing for every other tag. A name is an `i32` index into the name map,
//! stored little-endian.

use crate::byte_io::{i32_from_le_bytes, i32_le_bytes};
use crate::error::Error;
use crate::unversioned::properties::property_type::EPropertyType;
use vstd::prelude::*;

verus! {

/// The mathematical value of a usmap property type: the tree of types, with
/// names as character sequences.
pub enum PropertyModel {
    /// A type that carries nothing beyond its tag.
    Shallow(EPropertyType),
    /// An enum property: the type of its underlying value, and the enum's name.
    Enum { inner: Box<PropertyModel>, name: Seq<char> },
    /// A struct property, with the name of the struct type.
    Struct { struct_type: Seq<char> },
    /// A set of elements of the inner type.
    SetOf(Box<PropertyModel>),
    /// An array of elements of the inner type.
    ArrayOf(Box<PropertyModel>),
    /// A map from the key type to the value type.
    MapOf { key: Box<PropertyModel>, value: Box<PropertyModel> },
    /// An optional value of the inner type.
    OptionalOf(Box<PropertyModel>),
}

/// The tags whose types carry more than the tag itself.
pub open spec fn is_compound(t: EPropertyType) -> bool {
    ||| t == EPropertyType::EnumProperty
    ||| t == EPropertyType::StructProperty
    ||| t == EPropertyType::SetProperty
    ||| t == EPropertyType::ArrayProperty
    ||| t == EPropertyType::MapProperty
    ||| t == EPropertyType::OptionalProperty
}

impl PropertyModel {
    /// The type tag of this property type.
    pub open spec fn property_type(self) -> EPropertyType {
        match self {
            PropertyModel::Shallow(t) => t,
            PropertyModel::Enum { .. } => EPropertyType::EnumProperty,
            PropertyModel::Struct { .. } => EPropertyType::StructProperty,
            PropertyModel::SetOf(_) => EPropertyType::SetProperty,
            PropertyModel::ArrayOf(_) => EPropertyType::ArrayProperty,
            PropertyModel::MapOf { .. } => EPropertyType::MapProperty,
            PropertyModel::OptionalOf(_) => EPropertyType::OptionalProperty,
        }
    }

    /// No shallow node carries a tag that promises more than the tag: such a
    /// node would be written as a bare tag that no reader takes for it.
    pub open spec fn wf(self) -> bool
        decreases self,
    {
        match self {
            PropertyModel::Shallow(t) => !is_compound(t),
            PropertyModel::Enum { inner, .. } => inner.wf(),
            PropertyModel::Struct { .. } => true,
            PropertyModel::SetOf(inner) => inner.wf(),
            PropertyModel::ArrayOf(inner) => inner.wf(),
            PropertyModel::MapOf { key, value } => key.wf() && value.wf(),
            PropertyModel::OptionalOf(inner) => inner.wf(),
        }
    }
}

/// The names of a name map, as character sequences.
pub open spec fn name_views(names: Seq<String>) -> Seq<Seq<char>> {
    names.map_values(|s: String| s@)
}

/// Reads a name: a little-endian `i32` index into `names`.
/// Gives the name and the number of bytes read.
pub open spec fn parse_name(names: Seq<Seq<char>>, s: Seq<u8>) -> Result<(Seq<char>, nat), Error> {
    if s.len() < 4 {
        Err(Error::UnexpectedEnd)
    } else {
        let index = i32_from_le_bytes(s);
        if 0 <= index < names.len() {
            Ok((names[index as int], 4))
        } else {
            Err(Error::InvalidNameIndex(index))
        }
    }
}

/// Writes a name as the little-endian `i32` index of its first occurrence in
/// `names`.
pub open spec fn serialize_name(names: Seq<Seq<char>>, name: Seq<char>) -> Result<Seq<u8>, Error> {
    match names.index_of_first(name) {
        Some(index) => if index <= i32::MAX {
            Ok(i32_le_bytes(index as i32))
        } else {
            Err(Error::NameNotInMap)
        },
        None => Err(Error::NameNotInMap),
    }
}

/// Reads a property type from the front of `s`, resolving names in `names`.
/// Gives the property type and the number of bytes read, or the first error
/// met in reading order.
pub open spec fn parse_property(names: Seq<Seq<char>>, s: Seq<u8>) -> Result<(PropertyModel, nat), Error>
    decreases s.len(), 0nat,
{
    if s.len() == 0 {
        Err(Error::UnexpectedEnd)
    } else {
        match EPropertyType::spec_from_code(s[0]) {
            None => Err(Error::InvalidPropertyType(s[0])),
            Some(t) => match parse_after_tag(names, t, s.drop_first()) {
                Ok((m, n)) => Ok((m, n + 1)),
                Err(e) => Err(e),
            },
        }
    }
}

/// Reads what follows the tag byte of a property type of type `t`, from the
/// front of `s`. Gives the property type and the number of bytes read after
/// the tag, or the first error met in reading order.
pub open spec fn parse_after_tag(names: Seq<Seq<char>>, t: EPropertyType, s: Seq<u8>) -> Result<(PropertyModel, nat), Error>
    decreases s.len(), 1nat,
{
    match t {
        EPropertyType::EnumProperty => match parse_property(names, s) {
            Ok((inner, n)) => match parse_name(names, s.skip(n as int)) {
                Ok((name, m)) => Ok((PropertyModel::Enum { inner: Box::new(inner), name }, n + m)),
                Err(e) => Err(e),
            },
            Err(e) => Err(e),
        },
        EPropertyType::StructProperty => match parse_name(names, s) {
            Ok((name, m)) => Ok((PropertyModel::Struct { struct_type: name }, m)),
            Err(e) => Err(e),
        },
        EPropertyType::SetProperty => match parse_property(names, s) {
            Ok((inner, n)) => Ok((PropertyModel::SetOf(Box::new(inner)), n)),
            Err(e) => Err(e),
        },
        EPropertyType::ArrayProperty => match parse_property(names, s) {
            Ok((inner, n)) => Ok((PropertyModel::ArrayOf(Box::new(inner)), n)),
            Err(e) => Err(e),
        },
        EPropertyType::OptionalProperty => match parse_property(names, s) {
            Ok((inner, n)) => Ok((PropertyModel::OptionalOf(Box::new(inner)), n)),
            Err(e) => Err(e),
        },
        EPropertyType::MapProperty => match parse_property(names, s) {
            // the key never reads past the end (`lemma_parse_consumes`); the
            // bound only lets the definition's termination be seen
            Ok((key, n)) => if n <= s.len() {
                match parse_property(names, s.skip(n as int)) {
                    Ok((value, m)) => Ok(
                        (PropertyModel::MapOf { key: Box::new(key), value: Box::new(value) }, n + m),
                    ),
                    Err(e) => Err(e),
                }
            } else {
                Err(Error::UnexpectedEnd)
            },
            Err(e) => Err(e),
        },
        _ => Ok((PropertyModel::Shallow(t), 0)),
    }
}

/// `bytes` with the tag byte of `t` in front, or the error unchanged.
pub open spec fn tagged(t: EPropertyType, bytes: Result<Seq<u8>, Error>) -> Result<Seq<u8>, Error> {
    match bytes {
        Ok(b) => Ok(seq![t.spec_code()] + b),
        Err(e) => Err(e),
    }
}

/// The two encodings one after the other, or the first error.
pub open spec fn in_sequence(first: Result<Seq<u8>, Error>, second: Result<Seq<u8>, Error>) -> Result<Seq<u8>, Error> {
    match first {
        Ok(a) => match second {
            Ok(b) => Ok(a + b),
            Err(e) => Err(e),
        },
        Err(e) => Err(e),
    }
}

/// Writes a property type, resolving names in `names`: the bytes, or the
/// first error met in writing order.
pub open spec fn serialize_property(names: Seq<Seq<char>>, m: PropertyModel) -> Result<Seq<u8>, Error>
    decreases m,
{
    match m {
        PropertyModel::Shallow(t) => Ok(seq![t.spec_code()]),
        PropertyModel::Enum { inner, name } => tagged(
            EPropertyType::EnumProperty,
            in_sequence(serialize_property(names, *inner), serialize_name(names, name)),
        ),
        PropertyModel::Struct { struct_type } => tagged(
            EPropertyType::StructProperty,
            serialize_name(names, struct_type),
        ),
        PropertyModel::SetOf(inner) => tagged(EPropertyType::SetProperty, serialize_property(names, *inner)),
        PropertyModel::ArrayOf(inner) => tagged(
            EPropertyType::ArrayProperty,
            serialize_property(names, *inner),
        ),
        PropertyModel::MapOf { key, value } => tagged(
            EPropertyType::MapProperty,
            in_sequence(serialize_property(names, *key), serialize_property(names, *value)),
        ),
        PropertyModel::OptionalOf(inner) => tagged(
            EPropertyType::OptionalProperty,
            serialize_property(names, *inner),
        ),
    }
}

/// The bytes of an encoding, or nothing where it fails.
pub open spec fn bytes_or_empty(r: Result<Seq<u8>, Error>) -> Seq<u8> {
    match r {
        Ok(b) => b,
        Err(_) => Seq::empty(),
    }
}

/// Success, or the error of an encoding.
pub open spec fn outcome_of(r: Result<Seq<u8>, Error>) -> Result<(), Error> {
    match r {
        Ok(_) => Ok(()),
        Err(e) => Err(e),
    }
}

/// The bytes a writer appends for a property type before it stops: all of
/// its encoding where that succeeds, else everything written before the
/// first error (the name that cannot be written contributes nothing).
pub open spec fn emitted_property(names: Seq<Seq<char>>, m: PropertyModel) -> Seq<u8>
    decreases m,
{
    match m {
        PropertyModel::Shallow(t) => seq![t.spec_code()],
        PropertyModel::Enum { inner, name } => seq![EPropertyType::EnumProperty.spec_code()]
            + emitted_property(names, *inner) + if serialize_property(names, *inner) is Ok {
            bytes_or_empty(serialize_name(names, name))
        } else {
            Seq::empty()
        },
        PropertyModel::Struct { struct_type } => seq![EPropertyType::StructProperty.spec_code()]
            + bytes_or_empty(serialize_name(names, struct_type)),
        PropertyModel::SetOf(inner) => seq![EPropertyType::SetProperty.spec_code()]
            + emitted_property(names, *inner),
        PropertyModel::ArrayOf(inner) => seq![EPropertyType::ArrayProperty.spec_code()]
            + emitted_property(names, *inner),
        PropertyModel::MapOf { key, value } => seq![EPropertyType::MapProperty.spec_code()]
            + emitted_property(names, *key) + if serialize_property(names, *key) is Ok {
            emitted_property(names, *value)
        } else {
            Seq::empty()
        },
        PropertyModel::OptionalOf(inner) => seq![EPropertyType::OptionalProperty.spec_code()]
            + emitted_property(names, *inner),
    }
}

/// What a write of `m` does: it appends exactly `emitted_property`, and it
/// returns the length of the encoding, or the grammar's first error.
pub open spec fn write_outcome(
    before: Seq<u8>,
    after: Seq<u8>,
    names: Seq<Seq<char>>,
    m: PropertyModel,
    r: Result<usize, Error>,
) -> bool {
    &&& after == before + emitted_property(names, m)
    &&& match serialize_property(names, m) {
        Ok(b) => r matches Ok(n) && n == b.len(),
        Err(e) => r == Err::<usize, Error>(e),
    }
}

/// How many bytes a read of a name advances: four where it succeeds, none
/// where it fails.
pub open spec fn name_read_len(names: Seq<Seq<char>>, s: Seq<u8>) -> nat {
    if parse_name(names, s) is Ok {
        4
    } else {
        0
    }
}

/// How many bytes a read of a property type from the front of `s` advances,
/// whether it succeeds or stops at an error: a failed read stops right after
/// the last byte it took (a bad tag byte is taken; a name is taken only when
/// it resolves).
pub open spec fn read_len(names: Seq<Seq<char>>, s: Seq<u8>) -> nat
    decreases s.len(), 0nat,
{
    if s.len() == 0 {
        0
    } else {
        match EPropertyType::spec_from_code(s[0]) {
            None => 1,
            Some(t) => 1 + after_tag_read_len(names, t, s.drop_first()),
        }
    }
}

/// How many bytes a read of what follows a tag of type `t` advances, whether
/// it succeeds or stops at an error.
pub open spec fn after_tag_read_len(names: Seq<Seq<char>>, t: EPropertyType, s: Seq<u8>) -> nat
    decreases s.len(), 1nat,
{
    match t {
        EPropertyType::EnumProperty => match parse_property(names, s) {
            Ok((_, n)) => n + name_read_len(names, s.skip(n as int)),
            Err(_) => read_len(names, s),
        },
        EPropertyType::StructProperty => name_read_len(names, s),
        EPropertyType::SetProperty => read_len(names, s),
        EPropertyType::ArrayProperty => read_len(names, s),
        EPropertyType::OptionalProperty => read_len(names, s),
        EPropertyType::MapProperty => match parse_property(names, s) {
            // as in `parse_after_tag`, the bound only lets termination be seen
            Ok((_, n)) => if n <= s.len() {
                n + read_len(names, s.skip(n as int))
            } else {
                0
            },
            Err(_) => read_len(names, s),
        },
        _ => 0,
    }
}

} // verus!
