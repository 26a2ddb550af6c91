//! The property type tags of the usmap format.

use vstd::prelude::*;

verus! {

/// The type of a property, as a usmap file tags it with one byte.
#[derive(Debug, Clone, Copy, PartialEq, Eq, Hash, Structural)]
pub enum EPropertyType {
    /// Tag byte `0`.
    ByteProperty,
    /// Tag byte `1`.
    BoolProperty,
    /// Tag byte `2`.
    IntProperty,
    /// Tag byte `3`.
    FloatProperty,
    /// Tag byte `4`.
    ObjectProperty,
    /// Tag byte `5`.
    NameProperty,
    /// Tag byte `6`.
    DelegateProperty,
    /// Tag byte `7`.
    DoubleProperty,
    /// Tag byte `8`.
    ArrayProperty,
    /// Tag byte `9`.
    StructProperty,
    /// Tag byte `10`.
    StrProperty,
    /// Tag byte `11`.
    TextProperty,
    /// Tag byte `12`.
    InterfaceProperty,
    /// Tag byte `13`.
    MulticastDelegateProperty,
    /// Tag byte `14`.
    WeakObjectProperty,
    /// Tag byte `15`.
    LazyObjectProperty,
    /// Tag byte `16`.
    AssetObjectProperty,
    /// Tag byte `17`.
    SoftObjectProperty,
    /// Tag byte `18`.
    UInt64Property,
    /// Tag byte `19`.
    UInt32Property,
    /// Tag byte `20`.
    UInt16Property,
    /// Tag byte `21`.
    Int64Property,
    /// Tag byte `22`.
    Int16Property,
    /// Tag byte `23`.
    Int8Property,
    /// Tag byte `24`.
    MapProperty,
    /// Tag byte `25`.
    SetProperty,
    /// Tag byte `26`.
    EnumProperty,
    /// Tag byte `27`.
    FieldPathProperty,
    /// Tag byte `28`.
    OptionalProperty,
    /// Tag byte `29`.
    Utf8StrProperty,
    /// Tag byte `30`.
    AnsiStrProperty,
    /// Tag byte `255`.
    Unknown,
}

impl EPropertyType {
    /// The tag byte that stands for this type.
    pub open spec fn spec_code(self) -> u8 {
        match self {
            EPropertyType::ByteProperty => 0,
            EPropertyType::BoolProperty => 1,
            EPropertyType::IntProperty => 2,
            EPropertyType::FloatProperty => 3,
            EPropertyType::ObjectProperty => 4,
            EPropertyType::NameProperty => 5,
            EPropertyType::DelegateProperty => 6,
            EPropertyType::DoubleProperty => 7,
            EPropertyType::ArrayProperty => 8,
            EPropertyType::StructProperty => 9,
            EPropertyType::StrProperty => 10,
            EPropertyType::TextProperty => 11,
            EPropertyType::InterfaceProperty => 12,
            EPropertyType::MulticastDelegateProperty => 13,
            EPropertyType::WeakObjectProperty => 14,
            EPropertyType::LazyObjectProperty => 15,
            EPropertyType::AssetObjectProperty => 16,
            EPropertyType::SoftObjectProperty => 17,
            EPropertyType::UInt64Property => 18,
            EPropertyType::UInt32Property => 19,
            EPropertyType::UInt16Property => 20,
            EPropertyType::Int64Property => 21,
            EPropertyType::Int16Property => 22,
            EPropertyType::Int8Property => 23,
            EPropertyType::MapProperty => 24,
            EPropertyType::SetProperty => 25,
            EPropertyType::EnumProperty => 26,
            EPropertyType::FieldPathProperty => 27,
            EPropertyType::OptionalProperty => 28,
            EPropertyType::Utf8StrProperty => 29,
            EPropertyType::AnsiStrProperty => 30,
            EPropertyType::Unknown => 255,
        }
    }

    /// The type that a tag byte stands for, if any. Kept opaque: a proof
    /// about one byte reveals it or uses the lemmas below.
    #[verifier::opaque]
    pub open spec fn spec_from_code(code: u8) -> Option<EPropertyType> {
        if code == 0 {
            Some(EPropertyType::ByteProperty)
        } else if code == 1 {
            Some(EPropertyType::BoolProperty)
        } else if code == 2 {
            Some(EPropertyType::IntProperty)
        } else if code == 3 {
            Some(EPropertyType::FloatProperty)
        } else if code == 4 {
            Some(EPropertyType::ObjectProperty)
        } else if code == 5 {
            Some(EPropertyType::NameProperty)
        } else if code == 6 {
            Some(EPropertyType::DelegateProperty)
        } else if code == 7 {
            Some(EPropertyType::DoubleProperty)
        } else if code == 8 {
            Some(EPropertyType::ArrayProperty)
        } else if code == 9 {
            Some(EPropertyType::StructProperty)
        } else if code == 10 {
            Some(EPropertyType::StrProperty)
        } else if code == 11 {
            Some(EPropertyType::TextProperty)
        } else if code == 12 {
            Some(EPropertyType::InterfaceProperty)
        } else if code == 13 {
            Some(EPropertyType::MulticastDelegateProperty)
        } else if code == 14 {
            Some(EPropertyType::WeakObjectProperty)
        } else if code == 15 {
            Some(EPropertyType::LazyObjectProperty)
        } else if code == 16 {
            Some(EPropertyType::AssetObjectProperty)
        } else if code == 17 {
            Some(EPropertyType::SoftObjectProperty)
        } else if code == 18 {
            Some(EPropertyType::UInt64Property)
        } else if code == 19 {
            Some(EPropertyType::UInt32Property)
        } else if code == 20 {
            Some(EPropertyType::UInt16Property)
        } else if code == 21 {
            Some(EPropertyType::Int64Property)
        } else if code == 22 {
            Some(EPropertyType::Int16Property)
        } else if code == 23 {
            Some(EPropertyType::Int8Property)
        } else if code == 24 {
            Some(EPropertyType::MapProperty)
        } else if code == 25 {
            Some(EPropertyType::SetProperty)
        } else if code == 26 {
            Some(EPropertyType::EnumProperty)
        } else if code == 27 {
            Some(EPropertyType::FieldPathProperty)
        } else if code == 28 {
            Some(EPropertyType::OptionalProperty)
        } else if code == 29 {
            Some(EPropertyType::Utf8StrProperty)
        } else if code == 30 {
            Some(EPropertyType::AnsiStrProperty)
        } else if code == 255 {
            Some(EPropertyType::Unknown)
        } else {
            None
        }
    }

    /// The tag byte that stands for this type.
    pub fn code(&self) -> (c: u8)
        ensures
            c == self.spec_code(),
    {
        match self {
            EPropertyType::ByteProperty => 0,
            EPropertyType::BoolProperty => 1,
            EPropertyType::IntProperty => 2,
            EPropertyType::FloatProperty => 3,
            EPropertyType::ObjectProperty => 4,
            EPropertyType::NameProperty => 5,
            EPropertyType::DelegateProperty => 6,
            EPropertyType::DoubleProperty => 7,
            EPropertyType::ArrayProperty => 8,
            EPropertyType::StructProperty => 9,
            EPropertyType::StrProperty => 10,
            EPropertyType::TextProperty => 11,
            EPropertyType::InterfaceProperty => 12,
            EPropertyType::MulticastDelegateProperty => 13,
            EPropertyType::WeakObjectProperty => 14,
            EPropertyType::LazyObjectProperty => 15,
            EPropertyType::AssetObjectProperty => 16,
            EPropertyType::SoftObjectProperty => 17,
            EPropertyType::UInt64Property => 18,
            EPropertyType::UInt32Property => 19,
            EPropertyType::UInt16Property => 20,
            EPropertyType::Int64Property => 21,
            EPropertyType::Int16Property => 22,
            EPropertyType::Int8Property => 23,
            EPropertyType::MapProperty => 24,
            EPropertyType::SetProperty => 25,
            EPropertyType::EnumProperty => 26,
            EPropertyType::FieldPathProperty => 27,
            EPropertyType::OptionalProperty => 28,
            EPropertyType::Utf8StrProperty => 29,
            EPropertyType::AnsiStrProperty => 30,
            EPropertyType::Unknown => 255,
        }
    }

    /// The type that a tag byte stands for; `None` for a byte that names no
    /// type.
    pub fn from_code(code: u8) -> (t: Option<EPropertyType>)
        ensures
            t == EPropertyType::spec_from_code(code),
    {
        reveal(EPropertyType::spec_from_code);
        match code {
            0 => Some(EPropertyType::ByteProperty),
            1 => Some(EPropertyType::BoolProperty),
            2 => Some(EPropertyType::IntProperty),
            3 => Some(EPropertyType::FloatProperty),
            4 => Some(EPropertyType::ObjectProperty),
            5 => Some(EPropertyType::NameProperty),
            6 => Some(EPropertyType::DelegateProperty),
            7 => Some(EPropertyType::DoubleProperty),
            8 => Some(EPropertyType::ArrayProperty),
            9 => Some(EPropertyType::StructProperty),
            10 => Some(EPropertyType::StrProperty),
            11 => Some(EPropertyType::TextProperty),
            12 => Some(EPropertyType::InterfaceProperty),
            13 => Some(EPropertyType::MulticastDelegateProperty),
            14 => Some(EPropertyType::WeakObjectProperty),
            15 => Some(EPropertyType::LazyObjectProperty),
            16 => Some(EPropertyType::AssetObjectProperty),
            17 => Some(EPropertyType::SoftObjectProperty),
            18 => Some(EPropertyType::UInt64Property),
            19 => Some(EPropertyType::UInt32Property),
            20 => Some(EPropertyType::UInt16Property),
            21 => Some(EPropertyType::Int64Property),
            22 => Some(EPropertyType::Int16Property),
            23 => Some(EPropertyType::Int8Property),
            24 => Some(EPropertyType::MapProperty),
            25 => Some(EPropertyType::SetProperty),
            26 => Some(EPropertyType::EnumProperty),
            27 => Some(EPropertyType::FieldPathProperty),
            28 => Some(EPropertyType::OptionalProperty),
            29 => Some(EPropertyType::Utf8StrProperty),
            30 => Some(EPropertyType::AnsiStrProperty),
            255 => Some(EPropertyType::Unknown),
            _ => None,
        }
    }
}

/// Every type has its own tag byte, and decoding that byte gives the type
/// back.
pub proof fn lemma_code_roundtrip(t: EPropertyType)
    ensures
        EPropertyType::spec_from_code(t.spec_code()) == Some(t),
{
    reveal(EPropertyType::spec_from_code);
}

/// A tag byte that decodes to a type is that type's own tag byte.
pub proof fn lemma_code_unique(code: u8)
    ensures
        EPropertyType::spec_from_code(code) matches Some(t) ==> t.spec_code() == code,
{
    reveal(EPropertyType::spec_from_code);
}

/// The usmap tag table: each type's tag byte is its position in the
/// declaration order of the format (0 byte, 1 bool, 2 int, 3 float, ...,
/// 30 ANSI string), with 255 for an unknown type; the bytes 31 to 254 name no
/// type.
pub proof fn lemma_code_table()
    ensures
        EPropertyType::spec_from_code(0) == Some(EPropertyType::ByteProperty),
        EPropertyType::spec_from_code(1) == Some(EPropertyType::BoolProperty),
        EPropertyType::spec_from_code(2) == Some(EPropertyType::IntProperty),
        EPropertyType::spec_from_code(3) == Some(EPropertyType::FloatProperty),
        EPropertyType::spec_from_code(4) == Some(EPropertyType::ObjectProperty),
        EPropertyType::spec_from_code(5) == Some(EPropertyType::NameProperty),
        EPropertyType::spec_from_code(6) == Some(EPropertyType::DelegateProperty),
        EPropertyType::spec_from_code(7) == Some(EPropertyType::DoubleProperty),
        EPropertyType::spec_from_code(8) == Some(EPropertyType::ArrayProperty),
        EPropertyType::spec_from_code(9) == Some(EPropertyType::StructProperty),
        EPropertyType::spec_from_code(10) == Some(EPropertyType::StrProperty),
        EPropertyType::spec_from_code(11) == Some(EPropertyType::TextProperty),
        EPropertyType::spec_from_code(12) == Some(EPropertyType::InterfaceProperty),
        EPropertyType::spec_from_code(13) == Some(EPropertyType::MulticastDelegateProperty),
        EPropertyType::spec_from_code(14) == Some(EPropertyType::WeakObjectProperty),
        EPropertyType::spec_from_code(15) == Some(EPropertyType::LazyObjectProperty),
        EPropertyType::spec_from_code(16) == Some(EPropertyType::AssetObjectProperty),
        EPropertyType::spec_from_code(17) == Some(EPropertyType::SoftObjectProperty),
        EPropertyType::spec_from_code(18) == Some(EPropertyType::UInt64Property),
        EPropertyType::spec_from_code(19) == Some(EPropertyType::UInt32Property),
        EPropertyType::spec_from_code(20) == Some(EPropertyType::UInt16Property),
        EPropertyType::spec_from_code(21) == Some(EPropertyType::Int64Property),
        EPropertyType::spec_from_code(22) == Some(EPropertyType::Int16Property),
        EPropertyType::spec_from_code(23) == Some(EPropertyType::Int8Property),
        EPropertyType::spec_from_code(24) == Some(EPropertyType::MapProperty),
        EPropertyType::spec_from_code(25) == Some(EPropertyType::SetProperty),
        EPropertyType::spec_from_code(26) == Some(EPropertyType::EnumProperty),
        EPropertyType::spec_from_code(27) == Some(EPropertyType::FieldPathProperty),
        EPropertyType::spec_from_code(28) == Some(EPropertyType::OptionalProperty),
        EPropertyType::spec_from_code(29) == Some(EPropertyType::Utf8StrProperty),
        EPropertyType::spec_from_code(30) == Some(EPropertyType::AnsiStrProperty),
        EPropertyType::spec_from_code(255) == Some(EPropertyType::Unknown),
        EPropertyType::ByteProperty.spec_code() == 0,
        EPropertyType::BoolProperty.spec_code() == 1,
        EPropertyType::IntProperty.spec_code() == 2,
        EPropertyType::FloatProperty.spec_code() == 3,
        EPropertyType::ObjectProperty.spec_code() == 4,
        EPropertyType::NameProperty.spec_code() == 5,
        EPropertyType::DelegateProperty.spec_code() == 6,
        EPropertyType::DoubleProperty.spec_code() == 7,
        EPropertyType::ArrayProperty.spec_code() == 8,
        EPropertyType::StructProperty.spec_code() == 9,
        EPropertyType::StrProperty.spec_code() == 10,
        EPropertyType::TextProperty.spec_code() == 11,
        EPropertyType::InterfaceProperty.spec_code() == 12,
        EPropertyType::MulticastDelegateProperty.spec_code() == 13,
        EPropertyType::WeakObjectProperty.spec_code() == 14,
        EPropertyType::LazyObjectProperty.spec_code() == 15,
        EPropertyType::AssetObjectProperty.spec_code() == 16,
        EPropertyType::SoftObjectProperty.spec_code() == 17,
        EPropertyType::UInt64Property.spec_code() == 18,
        EPropertyType::UInt32Property.spec_code() == 19,
        EPropertyType::UInt16Property.spec_code() == 20,
        EPropertyType::Int64Property.spec_code() == 21,
        EPropertyType::Int16Property.spec_code() == 22,
        EPropertyType::Int8Property.spec_code() == 23,
        EPropertyType::MapProperty.spec_code() == 24,
        EPropertyType::SetProperty.spec_code() == 25,
        EPropertyType::EnumProperty.spec_code() == 26,
        EPropertyType::FieldPathProperty.spec_code() == 27,
        EPropertyType::OptionalProperty.spec_code() == 28,
        EPropertyType::Utf8StrProperty.spec_code() == 29,
        EPropertyType::AnsiStrProperty.spec_code() == 30,
        EPropertyType::Unknown.spec_code() == 255,
        forall|c: u8| 31 <= c < 255 ==> #[trigger] EPropertyType::spec_from_code(c) is None,
{
    reveal(EPropertyType::spec_from_code);
}

} // verus!
