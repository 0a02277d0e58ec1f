//! Typed data carried by metadata fields and by custom state.

use vstd::prelude::*;

verus! {

/// The primitive types of revealed data.
#[derive(Clone, Copy, PartialEq, Eq, Structural, Hash, Debug)]
pub enum DataType {
    U8,
    U16,
    U32,
    U64,
    I8,
    I16,
    I32,
    I64,
    F32,
    F64,
    Bytes,
    String,
}

/// A revealed value of one primitive type. Binary floating-point values are
/// held by their bit patterns.
#[derive(Clone, PartialEq, Eq, Hash, Debug)]
pub enum Revealed {
    U8(u8),
    U16(u16),
    U32(u32),
    U64(u64),
    I8(i8),
    I16(i16),
    I32(i32),
    I64(i64),
    F32(u32),
    F64(u64),
    Bytes(Vec<u8>),
    String(String),
}

impl Revealed {
    pub open spec fn spec_data_type(self) -> DataType {
        match self {
            Revealed::U8(_) => DataType::U8,
            Revealed::U16(_) => DataType::U16,
            Revealed::U32(_) => DataType::U32,
            Revealed::U64(_) => DataType::U64,
            Revealed::I8(_) => DataType::I8,
            Revealed::I16(_) => DataType::I16,
            Revealed::I32(_) => DataType::I32,
            Revealed::I64(_) => DataType::I64,
            Revealed::F32(_) => DataType::F32,
            Revealed::F64(_) => DataType::F64,
            Revealed::Bytes(_) => DataType::Bytes,
            Revealed::String(_) => DataType::String,
        }
    }

    pub open spec fn spec_u8(self) -> Option<u8> {
        match self {
            Revealed::U8(v) => Some(v),
            _ => None,
        }
    }

    pub open spec fn spec_u64(self) -> Option<u64> {
        match self {
            Revealed::U64(v) => Some(v),
            _ => None,
        }
    }

    pub open spec fn spec_i64(self) -> Option<i64> {
        match self {
            Revealed::I64(v) => Some(v),
            _ => None,
        }
    }

    pub open spec fn spec_string(self) -> Option<Seq<char>> {
        match self {
            Revealed::String(v) => Some(v@),
            _ => None,
        }
    }

    /// The primitive type of the value.
    pub fn data_type(&self) -> (r: DataType)
        ensures
            r == self.spec_data_type(),
    {
        match self {
            Revealed::U8(_) => DataType::U8,
            Revealed::U16(_) => DataType::U16,
            Revealed::U32(_) => DataType::U32,
            Revealed::U64(_) => DataType::U64,
            Revealed::I8(_) => DataType::I8,
            Revealed::I16(_) => DataType::I16,
            Revealed::I32(_) => DataType::I32,
            Revealed::I64(_) => DataType::I64,
            Revealed::F32(_) => DataType::F32,
            Revealed::F64(_) => DataType::F64,
            Revealed::Bytes(_) => DataType::Bytes,
            Revealed::String(_) => DataType::String,
        }
    }

    /// The value, where it is an unsigned byte.
    pub fn u8(&self) -> (r: Option<u8>)
        ensures
            r == self.spec_u8(),
    {
        match self {
            Revealed::U8(v) => Some(*v),
            _ => None,
        }
    }

    /// The value, where it is an unsigned 64-bit integer.
    pub fn u64(&self) -> (r: Option<u64>)
        ensures
            r == self.spec_u64(),
    {
        match self {
            Revealed::U64(v) => Some(*v),
            _ => None,
        }
    }

    /// The value, where it is a signed 64-bit integer.
    pub fn i64(&self) -> (r: Option<i64>)
        ensures
            r == self.spec_i64(),
    {
        match self {
            Revealed::I64(v) => Some(*v),
            _ => None,
        }
    }

    /// The value, where it is a string.
    pub fn string(&self) -> (r: Option<&String>)
        ensures
            match r {
                Some(s) => self.spec_string() == Some(s@),
                None => self.spec_string() is None,
            },
    {
        match self {
            Revealed::String(v) => Some(v),
            _ => None,
        }
    }
}

} // verus!
