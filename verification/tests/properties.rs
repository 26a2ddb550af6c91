use unreal_asset_base::error::Error;
use unreal_asset_base::unversioned::properties::{
    EPropertyType, UsmapArrayPropertyData, UsmapEnumPropertyData, UsmapMapPropertyData,
    UsmapOptionalPropertyData, UsmapPropertyData, UsmapSetPropertyData, UsmapShallowPropertyData,
    UsmapStructPropertyData,
};
use unreal_asset_base::unversioned::usmap_reader::UsmapReader;
use unreal_asset_base::unversioned::usmap_writer::UsmapWriter;

// tag bytes written as literals, so that a wrong numbering cannot agree with itself
const T_BYTE: u8 = 0;
const T_INT: u8 = 2;
const T_NAME: u8 = 5;
const T_ARRAY: u8 = 8;
const T_STRUCT: u8 = 9;
const T_MAP: u8 = 24;
const T_SET: u8 = 25;
const T_ENUM: u8 = 26;
const T_OPTIONAL: u8 = 28;
const T_UTF8STR: u8 = 29;
const T_ANSISTR: u8 = 30;

fn names() -> Vec<String> {
    vec!["EState".to_string(), "Vector".to_string(), "Inner".to_string()]
}

fn shallow(t: EPropertyType) -> Box<UsmapPropertyData> {
    Box::new(UsmapPropertyData::UsmapShallowPropertyData(UsmapShallowPropertyData {
        property_type: t,
    }))
}

fn read(bytes: Vec<u8>) -> (Result<UsmapPropertyData, Error>, usize) {
    let mut reader = UsmapReader::new(bytes, names());
    let result = UsmapPropertyData::new(&mut reader);
    (result, reader.position())
}

fn write(data: &UsmapPropertyData) -> (Result<usize, Error>, Vec<u8>) {
    let mut writer = UsmapWriter::new(names());
    let result = data.write(&mut writer);
    (result, writer.into_bytes())
}

#[test]
fn reads_an_optional_int() {
    let (read, position) = read(vec![T_OPTIONAL, T_INT]);
    let read = read.expect("optional");
    assert_eq!(position, 2);
    assert_eq!(read.get_property_type(), EPropertyType::OptionalProperty);
    match read {
        UsmapPropertyData::UsmapOptionalPropertyData(inner) => {
            assert_eq!(inner.get_property_type(), EPropertyType::OptionalProperty);
            assert_eq!(inner.inner_type.get_property_type(), EPropertyType::IntProperty);
        }
        other => panic!("expected an optional, got {other:?}"),
    }
}

#[test]
fn optional_new_reads_only_the_inner_type() {
    // the tag has already been read by the caller: what follows is the inner type
    let mut reader = UsmapReader::new(vec![T_ARRAY, T_NAME, 0xAA], names());
    let optional = UsmapOptionalPropertyData::new(&mut reader).expect("inner type");
    assert_eq!(reader.position(), 2);
    match *optional.inner_type {
        UsmapPropertyData::UsmapArrayPropertyData(ref array) => {
            assert_eq!(array.inner_type.get_property_type(), EPropertyType::NameProperty)
        }
        ref other => panic!("expected an array, got {other:?}"),
    }
}

#[test]
fn optional_new_fails_on_an_empty_input() {
    let mut reader = UsmapReader::new(vec![], names());
    assert_eq!(UsmapOptionalPropertyData::new(&mut reader), Err(Error::UnexpectedEnd));
}

#[test]
fn writes_an_optional_as_its_tag_and_its_inner_type() {
    let optional = UsmapOptionalPropertyData { inner_type: shallow(EPropertyType::IntProperty) };
    let mut writer = UsmapWriter::new(names());
    let size = optional.write(&mut writer).expect("written");
    assert_eq!(size, 2);
    assert_eq!(writer.written(), &[T_OPTIONAL, T_INT]);
}

#[test]
fn writes_a_nested_optional_with_its_full_size() {
    let data = UsmapPropertyData::UsmapOptionalPropertyData(UsmapOptionalPropertyData {
        inner_type: Box::new(UsmapPropertyData::UsmapStructPropertyData(
            UsmapStructPropertyData { struct_type: "Vector".to_string() },
        )),
    });
    let (size, bytes) = write(&data);
    assert_eq!(size, Ok(6));
    assert_eq!(bytes, vec![T_OPTIONAL, T_STRUCT, 1, 0, 0, 0]);
}

fn every_shape() -> UsmapPropertyData {
    UsmapPropertyData::UsmapMapPropertyData(UsmapMapPropertyData {
        inner_type: Box::new(UsmapPropertyData::UsmapEnumPropertyData(UsmapEnumPropertyData {
            inner_property: shallow(EPropertyType::ByteProperty),
            name: "EState".to_string(),
        })),
        value_type: Box::new(UsmapPropertyData::UsmapOptionalPropertyData(
            UsmapOptionalPropertyData {
                inner_type: Box::new(UsmapPropertyData::UsmapSetPropertyData(
                    UsmapSetPropertyData {
                        inner_type: Box::new(UsmapPropertyData::UsmapArrayPropertyData(
                            UsmapArrayPropertyData {
                                inner_type: Box::new(UsmapPropertyData::UsmapStructPropertyData(
                                    UsmapStructPropertyData { struct_type: "Inner".to_string() },
                                )),
                            },
                        )),
                    },
                )),
            },
        )),
    })
}

fn every_shape_bytes() -> Vec<u8> {
    vec![
        T_MAP, T_ENUM, T_BYTE, 0, 0, 0, 0, T_OPTIONAL, T_SET, T_ARRAY, T_STRUCT, 2, 0, 0, 0,
    ]
}

#[test]
fn writes_every_shape_in_reading_order() {
    let (size, bytes) = write(&every_shape());
    assert_eq!(size, Ok(15));
    assert_eq!(bytes, every_shape_bytes());
}

#[test]
fn reads_every_shape() {
    let (read, position) = read(every_shape_bytes());
    assert_eq!(read, Ok(every_shape()));
    assert_eq!(position, 15);
}

#[test]
fn a_written_type_reads_back() {
    let data = every_shape();
    let (_, bytes) = write(&data);
    let (read, position) = read(bytes.clone());
    assert_eq!(read, Ok(data));
    assert_eq!(position, bytes.len());
}

#[test]
fn a_read_type_writes_back_its_bytes() {
    let mut input = every_shape_bytes();
    input.extend([0xDE, 0xAD]);
    let (read, position) = read(input.clone());
    let (size, bytes) = write(&read.expect("read"));
    assert_eq!(size, Ok(position));
    assert_eq!(bytes, input[..position].to_vec());
}

#[test]
fn reading_stops_at_the_end_of_the_type() {
    let (read, position) = read(vec![T_INT, T_INT, T_INT]);
    assert_eq!(read.expect("int").get_property_type(), EPropertyType::IntProperty);
    assert_eq!(position, 1);
}

#[test]
fn reads_the_newer_string_and_optional_tags() {
    for (tag, expected) in [
        (T_OPTIONAL, None),
        (T_UTF8STR, Some(EPropertyType::Utf8StrProperty)),
        (T_ANSISTR, Some(EPropertyType::AnsiStrProperty)),
    ] {
        let (read, _) = read(vec![tag, T_INT]);
        let read = read.expect("known tag");
        match expected {
            Some(t) => assert_eq!(read.get_property_type(), t),
            None => assert_eq!(read.get_property_type(), EPropertyType::OptionalProperty),
        }
    }
}

#[test]
fn an_empty_input_is_an_unexpected_end() {
    assert_eq!(read(vec![]).0, Err(Error::UnexpectedEnd));
}

#[test]
fn a_truncated_optional_is_an_unexpected_end() {
    assert_eq!(read(vec![T_OPTIONAL]).0, Err(Error::UnexpectedEnd));
    assert_eq!(read(vec![T_MAP, T_INT]).0, Err(Error::UnexpectedEnd));
    assert_eq!(read(vec![T_STRUCT, 0, 0, 0]).0, Err(Error::UnexpectedEnd));
}

#[test]
fn an_unknown_tag_is_rejected() {
    assert_eq!(read(vec![31]).0, Err(Error::InvalidPropertyType(31)));
    assert_eq!(read(vec![T_OPTIONAL, 200]).0, Err(Error::InvalidPropertyType(200)));
}

#[test]
fn the_unknown_tag_reads_as_a_shallow_type() {
    let (read, position) = read(vec![0xFF]);
    assert_eq!(read.expect("unknown").get_property_type(), EPropertyType::Unknown);
    assert_eq!(position, 1);
}

#[test]
fn a_name_index_outside_the_map_is_rejected() {
    assert_eq!(read(vec![T_STRUCT, 3, 0, 0, 0]).0, Err(Error::InvalidNameIndex(3)));
    assert_eq!(
        read(vec![T_ENUM, T_BYTE, 0xFF, 0xFF, 0xFF, 0xFF]).0,
        Err(Error::InvalidNameIndex(-1))
    );
}

#[test]
fn a_name_missing_from_the_writers_map_is_rejected() {
    let data = UsmapPropertyData::UsmapStructPropertyData(UsmapStructPropertyData {
        struct_type: "Missing".to_string(),
    });
    assert_eq!(write(&data).0, Err(Error::NameNotInMap));
}

#[test]
fn a_name_is_written_as_its_first_index() {
    let mut writer = UsmapWriter::new(vec!["A".to_string(), "B".to_string(), "B".to_string()]);
    writer.write_name(&"B".to_string()).expect("written");
    assert_eq!(writer.written(), &[1, 0, 0, 0]);
}

#[test]
fn i32_values_are_little_endian() {
    let mut writer = UsmapWriter::new(vec![]);
    writer.write_i32(-2);
    writer.write_i32(0x0102_0304);
    let bytes = writer.into_bytes();
    assert_eq!(bytes, vec![0xFE, 0xFF, 0xFF, 0xFF, 4, 3, 2, 1]);

    let mut reader = UsmapReader::new(bytes, vec![]);
    assert_eq!(reader.read_i32(), Ok(-2));
    assert_eq!(reader.read_i32(), Ok(0x0102_0304));
    assert_eq!(reader.read_i32(), Err(Error::UnexpectedEnd));
    assert_eq!(reader.read_u8(), Err(Error::UnexpectedEnd));
}

#[test]
fn names_are_read_through_the_name_map() {
    let mut reader = UsmapReader::new(vec![2, 0, 0, 0, 7, 0, 0, 0], names());
    assert_eq!(reader.read_name(), Ok("Inner".to_string()));
    assert_eq!(reader.read_name(), Err(Error::InvalidNameIndex(7)));
    assert_eq!(reader.position(), 4);
}

#[test]
fn every_tag_byte_decodes_to_the_type_with_that_code() {
    let mut known = 0;
    for code in 0..=255u8 {
        if let Some(t) = EPropertyType::from_code(code) {
            assert_eq!(t.code(), code);
            known += 1;
        }
    }
    assert_eq!(known, 32);
    assert_eq!(EPropertyType::from_code(28), Some(EPropertyType::OptionalProperty));
    assert_eq!(EPropertyType::OptionalProperty.code(), 28);
    assert_eq!(EPropertyType::from_code(31), None);
}

#[test]
fn reading_ignores_the_bytes_that_follow() {
    let mut a = every_shape_bytes();
    a.extend([T_INT, 1, 2]);
    let mut b = every_shape_bytes();
    b.extend([0xFF]);
    let (read_a, position_a) = read(a);
    let (read_b, position_b) = read(b);
    assert_eq!(read_a, read_b);
    assert_eq!(position_a, position_b);
    assert_eq!(read_a, Ok(every_shape()));
}

#[test]
fn the_first_written_byte_is_the_type_tag() {
    let data = every_shape();
    let (_, bytes) = write(&data);
    assert_eq!(bytes[0], data.get_property_type().code());
    assert_eq!(EPropertyType::from_code(bytes[0]), Some(data.get_property_type()));
}

#[test]
fn cloning_keeps_the_whole_tree() {
    let data = every_shape();
    let copy = data.clone();
    assert_eq!(copy, data);
    assert_eq!(write(&copy).1, every_shape_bytes());

    let optional = UsmapOptionalPropertyData { inner_type: shallow(EPropertyType::IntProperty) };
    assert_eq!(optional.clone(), optional);
}

#[test]
fn a_shallow_node_with_a_compound_tag_does_not_read_back() {
    // such a node is written as its bare tag, which a reader takes for the start of a
    // longer type
    let data = *shallow(EPropertyType::ArrayProperty);
    let (size, bytes) = write(&data);
    assert_eq!(size, Ok(1));
    assert_eq!(bytes, vec![T_ARRAY]);
    assert_eq!(read(bytes).0, Err(Error::UnexpectedEnd));
}

#[test]
fn a_repeated_name_writes_back_as_its_first_index() {
    let mut reader =
        UsmapReader::new(vec![T_STRUCT, 1, 0, 0, 0], vec!["A".to_string(), "A".to_string()]);
    let read = UsmapPropertyData::new(&mut reader).expect("struct");
    let mut writer = UsmapWriter::new(vec!["A".to_string(), "A".to_string()]);
    assert_eq!(read.write(&mut writer), Ok(5));
    assert_eq!(writer.into_bytes(), vec![T_STRUCT, 0, 0, 0, 0]);
}

#[test]
fn writes_a_doubly_nested_optional() {
    let optional = UsmapOptionalPropertyData {
        inner_type: Box::new(UsmapPropertyData::UsmapOptionalPropertyData(
            UsmapOptionalPropertyData { inner_type: shallow(EPropertyType::IntProperty) },
        )),
    };
    let mut writer = UsmapWriter::new(names());
    assert_eq!(optional.write(&mut writer), Ok(3));
    assert_eq!(writer.into_bytes(), vec![T_OPTIONAL, T_OPTIONAL, T_INT]);
}

#[test]
fn a_failed_inner_write_keeps_the_tag_already_written() {
    let optional = UsmapOptionalPropertyData {
        inner_type: Box::new(UsmapPropertyData::UsmapStructPropertyData(
            UsmapStructPropertyData { struct_type: "Missing".to_string() },
        )),
    };
    let mut writer = UsmapWriter::new(names());
    assert_eq!(optional.write(&mut writer), Err(Error::NameNotInMap));
    assert_eq!(writer.into_bytes(), vec![T_OPTIONAL, T_STRUCT]);
}

#[test]
fn a_failed_map_write_stops_after_the_key() {
    let data = UsmapPropertyData::UsmapMapPropertyData(UsmapMapPropertyData {
        inner_type: Box::new(UsmapPropertyData::UsmapStructPropertyData(
            UsmapStructPropertyData { struct_type: "Missing".to_string() },
        )),
        value_type: shallow(EPropertyType::IntProperty),
    });
    let (result, bytes) = write(&data);
    assert_eq!(result, Err(Error::NameNotInMap));
    assert_eq!(bytes, vec![T_MAP, T_STRUCT]);
}

#[test]
fn a_failed_read_stops_after_the_last_byte_it_took() {
    // the inner optional's tag and the bad tag are taken; nothing after them
    let mut plain = UsmapReader::new(vec![T_OPTIONAL, T_OPTIONAL, 200, T_INT], names());
    assert_eq!(UsmapPropertyData::new(&mut plain), Err(Error::InvalidPropertyType(200)));
    assert_eq!(plain.position(), 3);

    // the optional read of what follows a tag stops at the same place as the plain read
    let mut after_tag = UsmapReader::new(vec![T_OPTIONAL, 200, T_INT], names());
    assert_eq!(
        UsmapOptionalPropertyData::new(&mut after_tag),
        Err(Error::InvalidPropertyType(200))
    );
    assert_eq!(after_tag.position(), 2);

    // an unresolved name is not taken
    let mut enum_reader = UsmapReader::new(vec![T_ENUM, T_BYTE, 9, 0, 0, 0], names());
    assert_eq!(UsmapPropertyData::new(&mut enum_reader), Err(Error::InvalidNameIndex(9)));
    assert_eq!(enum_reader.position(), 2);

    // a truncated input is read to its end, never past it
    let mut truncated = UsmapReader::new(vec![T_MAP, T_INT], names());
    assert_eq!(UsmapPropertyData::new(&mut truncated), Err(Error::UnexpectedEnd));
    assert_eq!(truncated.position(), 2);
}
