//! What holds of the property type grammar as a whole: reading consumes only
//! what it should, and writing and reading undo each other.

use crate::byte_io::{
    i32_from_le_bytes,
    i32_le_bytes,
    lemma_i32_le_bytes_roundtrip,
    lemma_i32_le_value_roundtrip,
};
use crate::unversioned::properties::format::{
    after_tag_read_len, emitted_property, parse_after_tag, parse_name,
    parse_property, read_len, serialize_name, serialize_property, write_outcome, PropertyModel,
};
use crate::error::Error;
use crate::unversioned::properties::property_type::{
    lemma_code_roundtrip,
    lemma_code_unique,
    EPropertyType,
};
use vstd::prelude::*;

verus! {

/// A successful read consumes at least the tag byte and never more than the
/// input holds; what it reads is well formed, and its type is the one the
/// first byte names.
pub proof fn lemma_parse_consumes(names: Seq<Seq<char>>, s: Seq<u8>)
    ensures
        parse_property(names, s) matches Ok((m, n)) ==> {
            &&& 1 <= n <= s.len()
            &&& m.wf()
            &&& m.property_type().spec_code() == s[0]
        },
    decreases s.len(), 0nat,
{
    if s.len() > 0 {
        lemma_code_unique(s[0]);
        if let Some(t) = EPropertyType::spec_from_code(s[0]) {
            lemma_after_tag_consumes(names, t, s.drop_first());
        }
    }
}

/// A successful read of what follows a tag never consumes more than the input
/// holds; what it reads is well formed and of the tag's type.
pub proof fn lemma_after_tag_consumes(names: Seq<Seq<char>>, t: EPropertyType, s: Seq<u8>)
    ensures
        parse_after_tag(names, t, s) matches Ok((m, n)) ==> {
            &&& n <= s.len()
            &&& m.wf()
            &&& m.property_type() == t
        },
    decreases s.len(), 1nat,
{
    match t {
        EPropertyType::EnumProperty => {
            lemma_parse_consumes(names, s);
        },
        EPropertyType::SetProperty => {
            lemma_parse_consumes(names, s);
        },
        EPropertyType::ArrayProperty => {
            lemma_parse_consumes(names, s);
        },
        EPropertyType::OptionalProperty => {
            lemma_parse_consumes(names, s);
        },
        EPropertyType::MapProperty => {
            lemma_parse_consumes(names, s);
            if let Ok((_, n)) = parse_property(names, s) {
                lemma_parse_consumes(names, s.skip(n as int));
            }
        },
        _ => {},
    }
}

/// Reading looks at nothing past the bytes it consumes: a property type read
/// from `s` is read the same from its bytes followed by anything else.
pub proof fn lemma_parse_ignores_what_follows(names: Seq<Seq<char>>, s: Seq<u8>, t: Seq<u8>)
    ensures
        parse_property(names, s) matches Ok((m, n)) ==> parse_property(names, s.take(n as int) + t)
            == Ok::<(PropertyModel, nat), Error>((m, n)),
    decreases s.len(), 0nat,
{
    if let Ok((m, n)) = parse_property(names, s) {
        lemma_parse_consumes(names, s);
        let tag = EPropertyType::spec_from_code(s[0])->0;
        let s2 = s.take(n as int) + t;
        assert(s2[0] == s[0]);
        lemma_after_tag_ignores_what_follows(names, tag, s.drop_first(), t);
        assert(s2.drop_first() =~= s.drop_first().take(n - 1) + t);
    }
}

/// What follows a tag is read the same when other bytes follow it.
pub proof fn lemma_after_tag_ignores_what_follows(
    names: Seq<Seq<char>>,
    tag: EPropertyType,
    s: Seq<u8>,
    t: Seq<u8>,
)
    ensures
        parse_after_tag(names, tag, s) matches Ok((m, n)) ==> parse_after_tag(
            names,
            tag,
            s.take(n as int) + t,
        ) == Ok::<(PropertyModel, nat), Error>((m, n)),
    decreases s.len(), 2nat,
{
    if let Ok((m, n)) = parse_after_tag(names, tag, s) {
        let s2 = s.take(n as int) + t;
        match tag {
            EPropertyType::EnumProperty => {
                lemma_enum_ignores_what_follows(names, s, t);
            },
            EPropertyType::StructProperty => {
                assert(s2[0] == s[0] && s2[1] == s[1] && s2[2] == s[2] && s2[3] == s[3]);
            },
            EPropertyType::SetProperty => {
                lemma_parse_ignores_what_follows(names, s, t);
            },
            EPropertyType::ArrayProperty => {
                lemma_parse_ignores_what_follows(names, s, t);
            },
            EPropertyType::OptionalProperty => {
                lemma_parse_ignores_what_follows(names, s, t);
            },
            EPropertyType::MapProperty => {
                lemma_map_ignores_what_follows(names, s, t);
            },
            _ => {},
        }
    }
}

/// The enum case of `lemma_after_tag_ignores_what_follows`.
proof fn lemma_enum_ignores_what_follows(names: Seq<Seq<char>>, s: Seq<u8>, t: Seq<u8>)
    ensures
        parse_after_tag(names, EPropertyType::EnumProperty, s) matches Ok((m, n)) ==> parse_after_tag(
            names,
            EPropertyType::EnumProperty,
            s.take(n as int) + t,
        ) == Ok::<(PropertyModel, nat), Error>((m, n)),
    decreases s.len(), 1nat,
{
    if let Ok((m, n)) = parse_after_tag(names, EPropertyType::EnumProperty, s) {
        lemma_parse_consumes(names, s);
        let k = parse_property(names, s)->Ok_0.1;
        let rest = s.skip(k as int);
        let t1 = rest.take(4) + t;
        let s2 = s.take(n as int) + t;
        lemma_parse_ignores_what_follows(names, s, t1);
        assert(s2 =~= s.take(k as int) + t1);
        assert(s2.skip(k as int) =~= t1);
        assert(t1[0] == rest[0] && t1[1] == rest[1] && t1[2] == rest[2] && t1[3] == rest[3]);
    }
}

/// The map case of `lemma_after_tag_ignores_what_follows`.
proof fn lemma_map_ignores_what_follows(names: Seq<Seq<char>>, s: Seq<u8>, t: Seq<u8>)
    ensures
        parse_after_tag(names, EPropertyType::MapProperty, s) matches Ok((m, n)) ==> parse_after_tag(
            names,
            EPropertyType::MapProperty,
            s.take(n as int) + t,
        ) == Ok::<(PropertyModel, nat), Error>((m, n)),
    decreases s.len(), 1nat,
{
    if let Ok((m, n)) = parse_after_tag(names, EPropertyType::MapProperty, s) {
        lemma_parse_consumes(names, s);
        let k = parse_property(names, s)->Ok_0.1;
        let rest = s.skip(k as int);
        lemma_parse_consumes(names, rest);
        let j = parse_property(names, rest)->Ok_0.1;
        let t1 = rest.take(j as int) + t;
        let s2 = s.take(n as int) + t;
        let key = parse_property(names, s)->Ok_0.0;
        let value = parse_property(names, rest)->Ok_0.0;
        lemma_parse_ignores_what_follows(names, s, t1);
        lemma_parse_ignores_what_follows(names, rest, t);
        assert(s2 =~= s.take(k as int) + t1);
        assert(s2.skip(k as int) =~= t1);
        assert(parse_property(names, s2) == Ok::<(PropertyModel, nat), Error>((key, k)));
        assert(parse_property(names, s2.skip(k as int)) == Ok::<(PropertyModel, nat), Error>(
            (value, j),
        ));
        assert(n == k + j);
    }
}

/// A written name reads back as the same name, whatever follows it.
pub proof fn lemma_name_roundtrip(names: Seq<Seq<char>>, name: Seq<char>, rest: Seq<u8>)
    requires
        serialize_name(names, name) is Ok,
    ensures
        ({
            let b = serialize_name(names, name)->Ok_0;
            &&& b.len() == 4
            &&& parse_name(names, b + rest) == Ok::<(Seq<char>, nat), Error>((name, 4))
        }),
{
    names.index_of_first_ensures(name);
    let i = names.index_of_first(name)->0;
    let b = i32_le_bytes(i as i32);
    lemma_i32_le_value_roundtrip(i as i32);
    let s = b + rest;
    assert(s[0] == b[0] && s[1] == b[1] && s[2] == b[2] && s[3] == b[3]);
    assert(i32_from_le_bytes(s) == i32_from_le_bytes(b));
}

/// A name read where names occur once each writes back as the bytes it was
/// read from.
pub proof fn lemma_name_read_roundtrip(names: Seq<Seq<char>>, s: Seq<u8>)
    requires
        names.no_duplicates(),
    ensures
        parse_name(names, s) matches Ok((name, n)) ==> n == 4 && serialize_name(names, name) == Ok::<
            Seq<u8>,
            Error,
        >(s.take(4)),
{
    if let Ok((name, n)) = parse_name(names, s) {
        let index = i32_from_le_bytes(s);
        names.index_of_first_ensures(name);
        assert(names.contains(name)) by {
            assert(names[index as int] == name);
        }
        let first = names.index_of_first(name)->0;
        assert(first == index as int) by {
            if first != index as int {
                assert(names[first] == names[index as int]);
            }
        }
        lemma_i32_le_bytes_roundtrip(s);
    }
}

/// Writing and reading undo each other: a well-formed property type that
/// writes successfully reads back whole from its bytes, consuming exactly
/// them, whatever bytes follow.
pub proof fn lemma_serialize_parse_roundtrip(names: Seq<Seq<char>>, m: PropertyModel, rest: Seq<u8>)
    requires
        m.wf(),
        serialize_property(names, m) is Ok,
    ensures
        ({
            let b = serialize_property(names, m)->Ok_0;
            parse_property(names, b + rest) == Ok::<(PropertyModel, nat), Error>(
                (m, b.len()),
            )
        }),
    decreases m,
{
    let b = serialize_property(names, m)->Ok_0;
    let s = b + rest;
    let t = m.property_type();
    lemma_code_roundtrip(t);
    match m {
        PropertyModel::Shallow(_) => {
            assert(s[0] == t.spec_code());
        },
        PropertyModel::Enum { inner, name } => {
            let bi = serialize_property(names, *inner)->Ok_0;
            let bn = serialize_name(names, name)->Ok_0;
            assert(s.drop_first() =~= bi + (bn + rest));
            lemma_serialize_parse_roundtrip(names, *inner, bn + rest);
            assert((bi + (bn + rest)).skip(bi.len() as int) =~= bn + rest);
            lemma_name_roundtrip(names, name, rest);
        },
        PropertyModel::Struct { struct_type } => {
            let bn = serialize_name(names, struct_type)->Ok_0;
            assert(s.drop_first() =~= bn + rest);
            lemma_name_roundtrip(names, struct_type, rest);
        },
        PropertyModel::SetOf(inner) => {
            let bi = serialize_property(names, *inner)->Ok_0;
            assert(s.drop_first() =~= bi + rest);
            lemma_serialize_parse_roundtrip(names, *inner, rest);
        },
        PropertyModel::ArrayOf(inner) => {
            let bi = serialize_property(names, *inner)->Ok_0;
            assert(s.drop_first() =~= bi + rest);
            lemma_serialize_parse_roundtrip(names, *inner, rest);
        },
        PropertyModel::MapOf { key, value } => {
            let bk = serialize_property(names, *key)->Ok_0;
            let bv = serialize_property(names, *value)->Ok_0;
            assert(s.drop_first() =~= bk + (bv + rest));
            lemma_serialize_parse_roundtrip(names, *key, bv + rest);
            assert((bk + (bv + rest)).skip(bk.len() as int) =~= bv + rest);
            lemma_serialize_parse_roundtrip(names, *value, rest);
        },
        PropertyModel::OptionalOf(inner) => {
            let bi = serialize_property(names, *inner)->Ok_0;
            assert(s.drop_first() =~= bi + rest);
            lemma_serialize_parse_roundtrip(names, *inner, rest);
        },
    }
}

/// Reading and writing undo each other: where each name occurs once in the
/// name map, a property type read from bytes writes back as exactly the
/// bytes it was read from.
pub proof fn lemma_parse_serialize_roundtrip(names: Seq<Seq<char>>, s: Seq<u8>)
    requires
        names.no_duplicates(),
    ensures
        parse_property(names, s) matches Ok((m, n)) ==> serialize_property(names, m) == Ok::<
            Seq<u8>,
            Error,
        >(s.take(n as int)),
    decreases s.len(), 0nat,
{
    if s.len() > 0 {
        if let Some(t) = EPropertyType::spec_from_code(s[0]) {
            lemma_code_unique(s[0]);
            lemma_after_tag_serialize_roundtrip(names, t, s.drop_first());
            if let Ok((m, n)) = parse_after_tag(names, t, s.drop_first()) {
                lemma_after_tag_consumes(names, t, s.drop_first());
                assert(seq![s[0]] + s.drop_first().take(n as int) =~= s.take(n + 1int));
            }
        }
    }
}

/// What follows a tag, read where each name occurs once in the name map,
/// writes back as the tag followed by exactly the bytes it was read from.
pub proof fn lemma_after_tag_serialize_roundtrip(names: Seq<Seq<char>>, t: EPropertyType, s: Seq<u8>)
    requires
        names.no_duplicates(),
    ensures
        parse_after_tag(names, t, s) matches Ok((m, n)) ==> serialize_property(names, m) == Ok::<
            Seq<u8>,
            Error,
        >(seq![t.spec_code()] + s.take(n as int)),
    decreases s.len(), 1nat,
{
    match t {
        EPropertyType::EnumProperty => {
            lemma_parse_serialize_roundtrip(names, s);
            lemma_parse_consumes(names, s);
            if let Ok((inner, n)) = parse_property(names, s) {
                lemma_name_read_roundtrip(names, s.skip(n as int));
                if let Ok((name, k)) = parse_name(names, s.skip(n as int)) {
                    assert(s.take(n as int) + s.skip(n as int).take(4) =~= s.take(n + 4int));
                }
            }
        },
        EPropertyType::StructProperty => {
            lemma_name_read_roundtrip(names, s);
        },
        EPropertyType::SetProperty => {
            lemma_parse_serialize_roundtrip(names, s);
        },
        EPropertyType::ArrayProperty => {
            lemma_parse_serialize_roundtrip(names, s);
        },
        EPropertyType::OptionalProperty => {
            lemma_parse_serialize_roundtrip(names, s);
        },
        EPropertyType::MapProperty => {
            lemma_parse_serialize_roundtrip(names, s);
            lemma_parse_consumes(names, s);
            if let Ok((key, n)) = parse_property(names, s) {
                lemma_parse_serialize_roundtrip(names, s.skip(n as int));
                lemma_parse_consumes(names, s.skip(n as int));
                if let Ok((value, k)) = parse_property(names, s.skip(n as int)) {
                    assert(s.take(n as int) + s.skip(n as int).take(k as int) =~= s.take((n + k) as int));
                }
            }
        },
        _ => {
            assert(s.take(0) =~= Seq::<u8>::empty());
            assert(seq![t.spec_code()] + Seq::<u8>::empty() =~= seq![t.spec_code()]);
        },
    }
}

/// What a successful write appended reads back, against the same name map,
/// as the well-formed property type that was written, consuming exactly as
/// many bytes as the write reported, whatever bytes follow.
pub proof fn lemma_write_then_read(
    names: Seq<Seq<char>>,
    m: PropertyModel,
    before: Seq<u8>,
    after: Seq<u8>,
    r: Result<usize, Error>,
    rest: Seq<u8>,
)
    requires
        m.wf(),
        write_outcome(before, after, names, m, r),
        r is Ok,
    ensures
        parse_property(names, after.skip(before.len() as int) + rest) == Ok::<(PropertyModel, nat), Error>(
            (m, r->Ok_0 as nat),
        ),
{
    let b = serialize_property(names, m)->Ok_0;
    lemma_emitted_on_success(names, m);
    assert(after.skip(before.len() as int) =~= b);
    lemma_serialize_parse_roundtrip(names, m, rest);
}

/// Where each name occurs once in the name map, writing a property type that
/// was read appends exactly the bytes it was read from, if the write
/// succeeds, and reports their number.
pub proof fn lemma_read_then_write(
    names: Seq<Seq<char>>,
    s: Seq<u8>,
    before: Seq<u8>,
    after: Seq<u8>,
    r: Result<usize, Error>,
)
    requires
        names.no_duplicates(),
        parse_property(names, s) is Ok,
        write_outcome(before, after, names, parse_property(names, s)->Ok_0.0, r),
    ensures
        after == before + s.take(parse_property(names, s)->Ok_0.1 as int),
        r == Ok::<usize, Error>(parse_property(names, s)->Ok_0.1 as usize),
{
    lemma_parse_serialize_roundtrip(names, s);
    lemma_emitted_on_success(names, parse_property(names, s)->Ok_0.0);
    lemma_parse_consumes(names, s);
}

/// Where a property type writes successfully, the bytes a writer appends are
/// its whole encoding.
pub proof fn lemma_emitted_on_success(names: Seq<Seq<char>>, m: PropertyModel)
    ensures
        serialize_property(names, m) matches Ok(b) ==> emitted_property(names, m) == b,
    decreases m,
{
    match m {
        PropertyModel::Enum { inner, name } => {
            lemma_emitted_on_success(names, *inner);
            if let Ok(b) = serialize_property(names, m) {
                let bi = serialize_property(names, *inner)->Ok_0;
                let bn = serialize_name(names, name)->Ok_0;
                assert(emitted_property(names, m) =~= seq![EPropertyType::EnumProperty.spec_code()]
                    + (bi + bn));
            }
        },
        PropertyModel::SetOf(inner) => {
            lemma_emitted_on_success(names, *inner);
        },
        PropertyModel::ArrayOf(inner) => {
            lemma_emitted_on_success(names, *inner);
        },
        PropertyModel::OptionalOf(inner) => {
            lemma_emitted_on_success(names, *inner);
        },
        PropertyModel::MapOf { key, value } => {
            lemma_emitted_on_success(names, *key);
            lemma_emitted_on_success(names, *value);
            if let Ok(b) = serialize_property(names, m) {
                let bk = serialize_property(names, *key)->Ok_0;
                let bv = serialize_property(names, *value)->Ok_0;
                assert(emitted_property(names, m) =~= seq![EPropertyType::MapProperty.spec_code()]
                    + (bk + bv));
            }
        },
        _ => {},
    }
}

/// A read never advances past the end of its input, whether it succeeds or
/// fails; where it succeeds it advances by exactly the bytes it read.
pub proof fn lemma_read_len(names: Seq<Seq<char>>, s: Seq<u8>)
    ensures
        read_len(names, s) <= s.len(),
        parse_property(names, s) matches Ok((_, n)) ==> read_len(names, s) == n,
    decreases s.len(), 0nat,
{
    if s.len() > 0 {
        if let Some(t) = EPropertyType::spec_from_code(s[0]) {
            lemma_after_tag_read_len(names, t, s.drop_first());
        }
    }
}

/// A read of what follows a tag never advances past the end of its input;
/// where it succeeds it advances by exactly the bytes it read.
pub proof fn lemma_after_tag_read_len(names: Seq<Seq<char>>, t: EPropertyType, s: Seq<u8>)
    ensures
        after_tag_read_len(names, t, s) <= s.len(),
        parse_after_tag(names, t, s) matches Ok((_, n)) ==> after_tag_read_len(names, t, s) == n,
    decreases s.len(), 1nat,
{
    match t {
        EPropertyType::EnumProperty => {
            lemma_read_len(names, s);
            lemma_parse_consumes(names, s);
        },
        EPropertyType::SetProperty => {
            lemma_read_len(names, s);
        },
        EPropertyType::ArrayProperty => {
            lemma_read_len(names, s);
        },
        EPropertyType::OptionalProperty => {
            lemma_read_len(names, s);
        },
        EPropertyType::MapProperty => {
            lemma_read_len(names, s);
            lemma_parse_consumes(names, s);
            if let Ok((_, n)) = parse_property(names, s) {
                lemma_read_len(names, s.skip(n as int));
            }
        },
        _ => {},
    }
}

/// The first byte a property type is written with is the tag of its type.
pub proof fn lemma_serialize_starts_with_tag(names: Seq<Seq<char>>, m: PropertyModel)
    ensures
        serialize_property(names, m) matches Ok(b) ==> b.len() >= 1 && b[0]
            == m.property_type().spec_code(),
{
}

} // verus!
