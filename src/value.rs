//! Typed values decoded from result columns, and the engine's column type tags.
use vstd::prelude::*;

use crate::decimal::DecimalValue;
use crate::temporal::{Date, Interval, Time, Timestamp};

verus! {

/// The type of a column, as the engine tags it.
#[derive(Clone, Copy, Debug, PartialEq, Eq, Structural)]
pub enum TypeTag {
    Invalid,
    Boolean,
    TinyInt,
    SmallInt,
    Integer,
    BigInt,
    UTinyInt,
    USmallInt,
    UInteger,
    UBigInt,
    Float,
    Double,
    Timestamp,
    Date,
    Time,
    Interval,
    HugeInt,
    UHugeInt,
    Varchar,
    Blob,
    Decimal,
    Enum,
    List,
    StructType,
    MapType,
    Array,
    Union,
    /// Any other type id of the engine.
    Other(u32),
}

/// The tag of a native type id.
pub open spec fn tag_of_id(id: u32) -> TypeTag {
    if id == 0 { TypeTag::Invalid }
    else if id == 1 { TypeTag::Boolean }
    else if id == 2 { TypeTag::TinyInt }
    else if id == 3 { TypeTag::SmallInt }
    else if id == 4 { TypeTag::Integer }
    else if id == 5 { TypeTag::BigInt }
    else if id == 6 { TypeTag::UTinyInt }
    else if id == 7 { TypeTag::USmallInt }
    else if id == 8 { TypeTag::UInteger }
    else if id == 9 { TypeTag::UBigInt }
    else if id == 10 { TypeTag::Float }
    else if id == 11 { TypeTag::Double }
    else if id == 12 { TypeTag::Timestamp }
    else if id == 13 { TypeTag::Date }
    else if id == 14 { TypeTag::Time }
    else if id == 15 { TypeTag::Interval }
    else if id == 16 { TypeTag::HugeInt }
    else if id == 17 || id == 37 { TypeTag::Varchar }
    else if id == 18 { TypeTag::Blob }
    else if id == 19 { TypeTag::Decimal }
    else if id == 23 { TypeTag::Enum }
    else if id == 24 { TypeTag::List }
    else if id == 25 { TypeTag::StructType }
    else if id == 26 { TypeTag::MapType }
    else if id == 28 { TypeTag::Union }
    else if id == 32 { TypeTag::UHugeInt }
    else if id == 33 { TypeTag::Array }
    else { TypeTag::Other(id) }
}

impl TypeTag {
    /// The tag of a native type id; string literals count as text.
    pub fn from_id(id: u32) -> (r: TypeTag)
        ensures
            r == tag_of_id(id),
    {
        match id {
            0 => TypeTag::Invalid,
            1 => TypeTag::Boolean,
            2 => TypeTag::TinyInt,
            3 => TypeTag::SmallInt,
            4 => TypeTag::Integer,
            5 => TypeTag::BigInt,
            6 => TypeTag::UTinyInt,
            7 => TypeTag::USmallInt,
            8 => TypeTag::UInteger,
            9 => TypeTag::UBigInt,
            10 => TypeTag::Float,
            11 => TypeTag::Double,
            12 => TypeTag::Timestamp,
            13 => TypeTag::Date,
            14 => TypeTag::Time,
            15 => TypeTag::Interval,
            16 => TypeTag::HugeInt,
            17 | 37 => TypeTag::Varchar,
            18 => TypeTag::Blob,
            19 => TypeTag::Decimal,
            23 => TypeTag::Enum,
            24 => TypeTag::List,
            25 => TypeTag::StructType,
            26 => TypeTag::MapType,
            28 => TypeTag::Union,
            32 => TypeTag::UHugeInt,
            33 => TypeTag::Array,
            _ => TypeTag::Other(id),
        }
    }
}

/// A decoded cell. It owns its contents and outlives the chunk it was read from.
///
/// Floating-point cells keep the IEEE-754 bits of the number.
#[derive(Debug)]
pub enum DuckValue {
    Null,
    Boolean(bool),
    TinyInt(i8),
    SmallInt(i16),
    Int(i32),
    BigInt(i64),
    HugeInt(i128),
    UTinyInt(u8),
    USmallInt(u16),
    UInt(u32),
    UBigInt(u64),
    UHugeInt(u128),
    /// Bits of a 32-bit float.
    Float(u32),
    /// Bits of a 64-bit float.
    Double(u64),
    Timestamp(Timestamp),
    Date(Date),
    Time(Time),
    Interval(Interval),
    Text(String),
    Decimal(DecimalValue),
    Blob(Vec<u8>),
    List(Vec<DuckValue>),
    Enum(String),
    /// A list of fixed length.
    Array(Vec<DuckValue>),
    Union(Box<DuckValue>),
}

impl DuckValue {
    /// The text of a text or enum cell; a null cell reads as the empty text; `None` for any
    /// other value.
    pub fn to_text(&self) -> (r: Option<String>)
        ensures
            self matches DuckValue::Text(s) ==> (r matches Some(x) && x@ == s@),
            self matches DuckValue::Enum(s) ==> (r matches Some(x) && x@ == s@),
            self is Null ==> (r matches Some(x) && x@ == Seq::<char>::empty()),
            !(self is Text || self is Enum || self is Null) ==> r is None,
    {
        match self {
            DuckValue::Text(s) => Some(s.clone()),
            DuckValue::Enum(s) => Some(s.clone()),
            DuckValue::Null => Some(String::new()),
            _ => None,
        }
    }

    /// A signed cell of at most 64 bits as an `i64`; a null cell reads as 0; `None` for any
    /// other value.
    pub fn to_i64(&self) -> (r: Option<i64>)
        ensures
            self matches DuckValue::BigInt(x) ==> r == Some(*x),
            self matches DuckValue::Int(x) ==> r == Some(*x as i64),
            self matches DuckValue::SmallInt(x) ==> r == Some(*x as i64),
            self matches DuckValue::TinyInt(x) ==> r == Some(*x as i64),
            self is Null ==> r == Some(0i64),
            !(self is BigInt || self is Int || self is SmallInt || self is TinyInt || self is Null)
                ==> r is None,
    {
        match self {
            DuckValue::BigInt(x) => Some(*x),
            DuckValue::Int(x) => Some(*x as i64),
            DuckValue::SmallInt(x) => Some(*x as i64),
            DuckValue::TinyInt(x) => Some(*x as i64),
            DuckValue::Null => Some(0),
            _ => None,
        }
    }

    /// A signed cell of at most 32 bits as an `i32`; a null cell reads as 0; `None` for any
    /// other value.
    pub fn to_i32(&self) -> (r: Option<i32>)
        ensures
            self matches DuckValue::Int(x) ==> r == Some(*x),
            self matches DuckValue::SmallInt(x) ==> r == Some(*x as i32),
            self matches DuckValue::TinyInt(x) ==> r == Some(*x as i32),
            self is Null ==> r == Some(0i32),
            !(self is Int || self is SmallInt || self is TinyInt || self is Null) ==> r is None,
    {
        match self {
            DuckValue::Int(x) => Some(*x),
            DuckValue::SmallInt(x) => Some(*x as i32),
            DuckValue::TinyInt(x) => Some(*x as i32),
            DuckValue::Null => Some(0),
            _ => None,
        }
    }
}

} // verus!
