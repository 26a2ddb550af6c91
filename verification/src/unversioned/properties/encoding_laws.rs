//! The usmap encoding of each kind of property type, stated byte by byte:
//! which tag byte starts it, what follows the tag and in which order, and how
//! a name is stored.

use crate::byte_io::{lemma_i32_from_le_value, lemma_i32_le_bytes_value};
use crate::error::Error;
use crate::unversioned::properties::format::{
    bytes_or_empty, emitted_property, is_compound, name_read_len, parse_name, parse_property,
    read_len, serialize_name, serialize_property, PropertyModel,
};
use crate::unversioned::properties::property_type::{lemma_code_table, EPropertyType};
use vstd::prelude::*;

verus! {

/// Reading a name resolves the index stored in its four bytes (base-256
/// digits, least significant first, two's complement): a non-negative index
/// `i` inside the name map gives the `i`-th name; any other index is refused
/// with that index; fewer than four bytes are an unexpected end.
pub proof fn lemma_name_read_resolves_index(names: Seq<Seq<char>>, s: Seq<u8>)
    ensures
        s.len() < 4 ==> parse_name(names, s) == Err::<(Seq<char>, nat), Error>(Error::UnexpectedEnd),
        s.len() >= 4 ==> ({
            let i = s[0] + 256 * s[1] + 65536 * s[2] + 16777216 * s[3];
            &&& s[3] < 128 && i < names.len() ==> parse_name(names, s) == Ok::<
                (Seq<char>, nat),
                Error,
            >((names[i], 4))
            &&& s[3] < 128 && i >= names.len() ==> parse_name(names, s) == Err::<
                (Seq<char>, nat),
                Error,
            >(Error::InvalidNameIndex(i as i32))
            &&& s[3] >= 128 ==> parse_name(names, s) == Err::<(Seq<char>, nat), Error>(
                Error::InvalidNameIndex((i - 4294967296) as i32),
            )
        }),
{
    if s.len() >= 4 {
        lemma_i32_from_le_value(s[0], s[1], s[2], s[3]);
    }
}

/// Writing a name stores the index of its first occurrence in the name map
/// as four bytes (base-256 digits, least significant first); a name past the
/// range of an `i32` index cannot be written.
pub proof fn lemma_name_write_stores_first_index(names: Seq<Seq<char>>, name: Seq<char>, i: int)
    requires
        0 <= i < names.len(),
        names[i] == name,
        forall|j: int| 0 <= j < i ==> names[j] != name,
    ensures
        i < 2147483648 ==> serialize_name(names, name) == Ok::<Seq<u8>, Error>(
            seq![(i % 256) as u8, ((i / 256) % 256) as u8, ((i / 65536) % 256) as u8, (i / 16777216) as u8],
        ),
        i >= 2147483648 ==> serialize_name(names, name) == Err::<Seq<u8>, Error>(Error::NameNotInMap),
{
    names.index_of_first_ensures(name);
    assert(names.contains(name));
    let first = names.index_of_first(name)->0;
    assert(first == i) by {
        if first < i {
            assert(names[first] != name);
        }
    }
    if i < 2147483648 {
        lemma_i32_le_bytes_value(i as i32);
    }
}

/// A name missing from the name map cannot be written.
pub proof fn lemma_name_write_missing(names: Seq<Seq<char>>, name: Seq<char>)
    requires
        !names.contains(name),
    ensures
        serialize_name(names, name) == Err::<Seq<u8>, Error>(Error::NameNotInMap),
{
    names.index_of_first_ensures(name);
}

/// An empty input holds no property type; a tag byte from 31 to 254 names no
/// type and is refused as it stands.
pub proof fn lemma_read_bad_start(names: Seq<Seq<char>>, c: u8, s: Seq<u8>)
    ensures
        parse_property(names, Seq::empty()) == Err::<(PropertyModel, nat), Error>(Error::UnexpectedEnd),
        31 <= c < 255 ==> parse_property(names, seq![c] + s) == Err::<(PropertyModel, nat), Error>(
            Error::InvalidPropertyType(c),
        ),
{
    lemma_code_table();
    assert((seq![c] + s)[0] == c);
}

/// A tag of a type that carries nothing more reads as that type alone,
/// taking just the tag byte.
pub proof fn lemma_read_shallow(names: Seq<Seq<char>>, t: EPropertyType, s: Seq<u8>)
    requires
        !is_compound(t),
    ensures
        parse_property(names, seq![t.spec_code()] + s) == Ok::<(PropertyModel, nat), Error>(
            (PropertyModel::Shallow(t), 1),
        ),
{
    lemma_code_table();
    assert((seq![t.spec_code()] + s)[0] == t.spec_code());
}

/// An array (tag 8) is exactly its element type, read right after the tag:
/// the element is what a read of the following bytes gives, and an error
/// there is the array's error.
pub proof fn lemma_read_array(names: Seq<Seq<char>>, s: Seq<u8>)
    ensures
        parse_property(names, seq![8u8] + s) == match parse_property(names, s) {
            Ok((inner, n)) => Ok((PropertyModel::ArrayOf(Box::new(inner)), n + 1)),
            Err(e) => Err::<(PropertyModel, nat), Error>(e),
        },
{
    lemma_code_table();
    assert((seq![8u8] + s).drop_first() =~= s);
}

/// A set (tag 25) is exactly its element type, read right after the tag.
pub proof fn lemma_read_set(names: Seq<Seq<char>>, s: Seq<u8>)
    ensures
        parse_property(names, seq![25u8] + s) == match parse_property(names, s) {
            Ok((inner, n)) => Ok((PropertyModel::SetOf(Box::new(inner)), n + 1)),
            Err(e) => Err::<(PropertyModel, nat), Error>(e),
        },
{
    lemma_code_table();
    assert((seq![25u8] + s).drop_first() =~= s);
}

/// An optional (tag 28) is exactly its inner type, read right after the tag.
pub proof fn lemma_read_optional(names: Seq<Seq<char>>, s: Seq<u8>)
    ensures
        parse_property(names, seq![28u8] + s) == match parse_property(names, s) {
            Ok((inner, n)) => Ok((PropertyModel::OptionalOf(Box::new(inner)), n + 1)),
            Err(e) => Err::<(PropertyModel, nat), Error>(e),
        },
{
    lemma_code_table();
    assert((seq![28u8] + s).drop_first() =~= s);
}

/// A map (tag 24) is its key type followed by its value type: the key is the
/// first type read after the tag and the value the one right after it,
/// whatever their kinds; the first error met is the map's error.
pub proof fn lemma_read_map(names: Seq<Seq<char>>, s: Seq<u8>)
    ensures
        parse_property(names, seq![24u8] + s) == match parse_property(names, s) {
            Ok((key, n)) => match parse_property(names, s.skip(n as int)) {
                Ok((value, k)) => Ok(
                    (PropertyModel::MapOf { key: Box::new(key), value: Box::new(value) }, n + k + 1),
                ),
                Err(e) => Err(e),
            },
            Err(e) => Err::<(PropertyModel, nat), Error>(e),
        },
{
    lemma_code_table();
    assert((seq![24u8] + s).drop_first() =~= s);
    crate::unversioned::properties::laws::lemma_parse_consumes(names, s);
}

/// A struct (tag 9) is the name of its struct type, read right after the tag.
pub proof fn lemma_read_struct(names: Seq<Seq<char>>, s: Seq<u8>)
    ensures
        parse_property(names, seq![9u8] + s) == match parse_name(names, s) {
            Ok((name, k)) => Ok((PropertyModel::Struct { struct_type: name }, k + 1)),
            Err(e) => Err::<(PropertyModel, nat), Error>(e),
        },
{
    lemma_code_table();
    assert((seq![9u8] + s).drop_first() =~= s);
}

/// An enum (tag 26) is the type of its underlying value followed by the
/// enum's name; the first error met is the enum's error.
pub proof fn lemma_read_enum(names: Seq<Seq<char>>, s: Seq<u8>)
    ensures
        parse_property(names, seq![26u8] + s) == match parse_property(names, s) {
            Ok((inner, n)) => match parse_name(names, s.skip(n as int)) {
                Ok((name, k)) => Ok(
                    (PropertyModel::Enum { inner: Box::new(inner), name }, n + k + 1),
                ),
                Err(e) => Err(e),
            },
            Err(e) => Err::<(PropertyModel, nat), Error>(e),
        },
{
    lemma_code_table();
    assert((seq![26u8] + s).drop_first() =~= s);
}

/// A type that carries nothing more is written as its tag byte alone.
pub proof fn lemma_write_shallow(names: Seq<Seq<char>>, t: EPropertyType)
    ensures
        serialize_property(names, PropertyModel::Shallow(t)) == Ok::<Seq<u8>, Error>(
            seq![t.spec_code()],
        ),
{
}

/// An array is written as the tag 8 followed by its element type.
pub proof fn lemma_write_array(names: Seq<Seq<char>>, inner: PropertyModel)
    ensures
        serialize_property(names, PropertyModel::ArrayOf(Box::new(inner))) == match serialize_property(
            names,
            inner,
        ) {
            Ok(b) => Ok(seq![8u8] + b),
            Err(e) => Err::<Seq<u8>, Error>(e),
        },
{
    lemma_code_table();
}

/// A set is written as the tag 25 followed by its element type.
pub proof fn lemma_write_set(names: Seq<Seq<char>>, inner: PropertyModel)
    ensures
        serialize_property(names, PropertyModel::SetOf(Box::new(inner))) == match serialize_property(
            names,
            inner,
        ) {
            Ok(b) => Ok(seq![25u8] + b),
            Err(e) => Err::<Seq<u8>, Error>(e),
        },
{
    lemma_code_table();
}

/// An optional is written as the tag 28 followed by its inner type.
pub proof fn lemma_write_optional(names: Seq<Seq<char>>, inner: PropertyModel)
    ensures
        serialize_property(names, PropertyModel::OptionalOf(Box::new(inner)))
            == match serialize_property(names, inner) {
            Ok(b) => Ok(seq![28u8] + b),
            Err(e) => Err::<Seq<u8>, Error>(e),
        },
{
    lemma_code_table();
}

/// A map is written as the tag 24, its key type, then its value type.
pub proof fn lemma_write_map(names: Seq<Seq<char>>, key: PropertyModel, value: PropertyModel)
    ensures
        serialize_property(names, PropertyModel::MapOf { key: Box::new(key), value: Box::new(value) })
            == match serialize_property(names, key) {
            Ok(bk) => match serialize_property(names, value) {
                Ok(bv) => Ok(seq![24u8] + bk + bv),
                Err(e) => Err(e),
            },
            Err(e) => Err::<Seq<u8>, Error>(e),
        },
{
    lemma_code_table();
    if let Ok(bk) = serialize_property(names, key) {
        if let Ok(bv) = serialize_property(names, value) {
            assert(seq![24u8] + (bk + bv) =~= seq![24u8] + bk + bv);
        }
    }
}

/// A struct is written as the tag 9 followed by the name of its struct type.
pub proof fn lemma_write_struct(names: Seq<Seq<char>>, name: Seq<char>)
    ensures
        serialize_property(names, PropertyModel::Struct { struct_type: name }) == match serialize_name(
            names,
            name,
        ) {
            Ok(b) => Ok(seq![9u8] + b),
            Err(e) => Err::<Seq<u8>, Error>(e),
        },
{
    lemma_code_table();
}

/// An enum is written as the tag 26, the type of its underlying value, then
/// the enum's name.
pub proof fn lemma_write_enum(names: Seq<Seq<char>>, inner: PropertyModel, name: Seq<char>)
    ensures
        serialize_property(names, PropertyModel::Enum { inner: Box::new(inner), name }) == match serialize_property(
            names,
            inner,
        ) {
            Ok(bi) => match serialize_name(names, name) {
                Ok(bn) => Ok(seq![26u8] + bi + bn),
                Err(e) => Err(e),
            },
            Err(e) => Err::<Seq<u8>, Error>(e),
        },
{
    lemma_code_table();
    if let Ok(bi) = serialize_property(names, inner) {
        if let Ok(bn) = serialize_name(names, name) {
            assert(seq![26u8] + (bi + bn) =~= seq![26u8] + bi + bn);
        }
    }
}

/// The type tag of each kind of property type.
pub proof fn lemma_property_type_of_kinds(
    t: EPropertyType,
    inner: PropertyModel,
    other: PropertyModel,
    name: Seq<char>,
)
    ensures
        PropertyModel::Shallow(t).property_type() == t,
        (PropertyModel::Enum { inner: Box::new(inner), name }).property_type()
            == EPropertyType::EnumProperty,
        (PropertyModel::Struct { struct_type: name }).property_type()
            == EPropertyType::StructProperty,
        PropertyModel::SetOf(Box::new(inner)).property_type() == EPropertyType::SetProperty,
        PropertyModel::ArrayOf(Box::new(inner)).property_type() == EPropertyType::ArrayProperty,
        (PropertyModel::MapOf { key: Box::new(inner), value: Box::new(other) }).property_type()
            == EPropertyType::MapProperty,
        PropertyModel::OptionalOf(Box::new(inner)).property_type()
            == EPropertyType::OptionalProperty,
{
}

/// What a writer appends for each kind, also where it stops at an error: the
/// tag byte always; then the nested types in order, stopping after the first
/// one that fails; a name only where it can be written.
pub proof fn lemma_emitted_layout(
    names: Seq<Seq<char>>,
    inner: PropertyModel,
    other: PropertyModel,
    name: Seq<char>,
)
    ensures
        emitted_property(names, PropertyModel::ArrayOf(Box::new(inner))) == seq![8u8]
            + emitted_property(names, inner),
        emitted_property(names, PropertyModel::SetOf(Box::new(inner))) == seq![25u8]
            + emitted_property(names, inner),
        emitted_property(names, PropertyModel::OptionalOf(Box::new(inner))) == seq![28u8]
            + emitted_property(names, inner),
        emitted_property(names, PropertyModel::Struct { struct_type: name }) == seq![9u8]
            + bytes_or_empty(serialize_name(names, name)),
        emitted_property(names, PropertyModel::MapOf { key: Box::new(inner), value: Box::new(other) })
            == seq![24u8] + emitted_property(names, inner) + if serialize_property(names, inner) is Ok {
            emitted_property(names, other)
        } else {
            Seq::<u8>::empty()
        },
        emitted_property(names, PropertyModel::Enum { inner: Box::new(inner), name }) == seq![26u8]
            + emitted_property(names, inner) + if serialize_property(names, inner) is Ok {
            bytes_or_empty(serialize_name(names, name))
        } else {
            Seq::<u8>::empty()
        },
{
    lemma_code_table();
}

/// How far a read of each kind advances, also where it stops at an error:
/// the tag byte (a bad one too); then the nested types in order, stopping in
/// the first one that fails; a name only where it resolves.
pub proof fn lemma_read_len_layout(names: Seq<Seq<char>>, c: u8, s: Seq<u8>)
    ensures
        read_len(names, Seq::empty()) == 0,
        31 <= c < 255 ==> read_len(names, seq![c] + s) == 1,
        read_len(names, seq![8u8] + s) == 1 + read_len(names, s),
        read_len(names, seq![25u8] + s) == 1 + read_len(names, s),
        read_len(names, seq![28u8] + s) == 1 + read_len(names, s),
        read_len(names, seq![9u8] + s) == 1 + name_read_len(names, s),
        read_len(names, seq![24u8] + s) == 1 + match parse_property(names, s) {
            Ok((_, n)) => n + read_len(names, s.skip(n as int)),
            Err(_) => read_len(names, s),
        },
        read_len(names, seq![26u8] + s) == 1 + match parse_property(names, s) {
            Ok((_, n)) => n + name_read_len(names, s.skip(n as int)),
            Err(_) => read_len(names, s),
        },
{
    lemma_code_table();
    crate::unversioned::properties::laws::lemma_parse_consumes(names, s);
    assert((seq![c] + s)[0] == c);
    assert((seq![c] + s).drop_first() =~= s);
    assert((seq![8u8] + s).drop_first() =~= s);
    assert((seq![25u8] + s).drop_first() =~= s);
    assert((seq![28u8] + s).drop_first() =~= s);
    assert((seq![9u8] + s).drop_first() =~= s);
    assert((seq![24u8] + s).drop_first() =~= s);
    assert((seq![26u8] + s).drop_first() =~= s);
}

} // verus!
