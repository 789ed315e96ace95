use vstd::prelude::*;

use vstd::bytes::{spec_u32_to_le_bytes, spec_u64_to_le_bytes, u32_to_le_bytes, u64_to_le_bytes};
use vstd::slice::slice_to_vec;
use vstd::string::StringSliceAdditionalSpecFns;

verus! {

/// The payload kinds the host knows for a metadata slot.
///
/// `InstanceId`, `String16` and `GfxResourceId` are reserved by the host;
/// no [`MarkerMetaData`] value has them.
#[derive(Clone, Copy, Debug, PartialEq, Eq, Structural)]
pub enum MarkerDataType {
    InstanceId,
    Int32,
    Uint32,
    Int64,
    Uint64,
    Float,
    Double,
    String,
    String16,
    Blob8,
    GfxResourceId,
}

/// The host's numeric tag for a payload kind.
pub open spec fn data_type_tag(t: MarkerDataType) -> u8 {
    match t {
        MarkerDataType::InstanceId => 1,
        MarkerDataType::Int32 => 2,
        MarkerDataType::Uint32 => 3,
        MarkerDataType::Int64 => 4,
        MarkerDataType::Uint64 => 5,
        MarkerDataType::Float => 6,
        MarkerDataType::Double => 7,
        MarkerDataType::String => 8,
        MarkerDataType::String16 => 9,
        MarkerDataType::Blob8 => 11,
        MarkerDataType::GfxResourceId => 12,
    }
}

impl MarkerDataType {
    /// The host's numeric tag for this payload kind.
    pub fn tag(self) -> (r: u8)
        ensures
            r == data_type_tag(self),
    {
        match self {
            MarkerDataType::InstanceId => 1,
            MarkerDataType::Int32 => 2,
            MarkerDataType::Uint32 => 3,
            MarkerDataType::Int64 => 4,
            MarkerDataType::Uint64 => 5,
            MarkerDataType::Float => 6,
            MarkerDataType::Double => 7,
            MarkerDataType::String => 8,
            MarkerDataType::String16 => 9,
            MarkerDataType::Blob8 => 11,
            MarkerDataType::GfxResourceId => 12,
        }
    }
}

/// The unit a metadata slot's value is measured in.
#[derive(Clone, Copy, Debug, PartialEq, Eq, Structural)]
pub enum MarkerDataUnit {
    Undefined,
    Nanoseconds,
    Bytes,
    Count,
    Percent,
    FrequencyHz,
}

/// The host's numeric code for a unit.
pub open spec fn data_unit_code(u: MarkerDataUnit) -> u8 {
    match u {
        MarkerDataUnit::Undefined => 0,
        MarkerDataUnit::Nanoseconds => 1,
        MarkerDataUnit::Bytes => 2,
        MarkerDataUnit::Count => 3,
        MarkerDataUnit::Percent => 4,
        MarkerDataUnit::FrequencyHz => 5,
    }
}

impl MarkerDataUnit {
    /// The host's numeric code for this unit.
    pub fn code(self) -> (r: u8)
        ensures
            r == data_unit_code(self),
    {
        match self {
            MarkerDataUnit::Undefined => 0,
            MarkerDataUnit::Nanoseconds => 1,
            MarkerDataUnit::Bytes => 2,
            MarkerDataUnit::Count => 3,
            MarkerDataUnit::Percent => 4,
            MarkerDataUnit::FrequencyHz => 5,
        }
    }
}

/// Whether the bytes of a text hold no NUL, so that the host, which reads
/// NUL-terminated text, sees all of it.
pub open spec fn nul_free(s: &str) -> bool {
    !s.spec_bytes().contains(0u8)
}

/// Whether `s` holds a NUL byte.
pub fn contains_nul(s: &str) -> (r: bool)
    ensures
        r == !nul_free(s),
{
    let bytes = s.as_bytes();
    let mut i: usize = 0;
    while i < bytes.len()
        invariant
            bytes@ == s.spec_bytes(),
            0 <= i <= bytes@.len(),
            forall|j: int| 0 <= j < i ==> bytes@[j] != 0u8,
        decreases bytes@.len() - i,
    {
        if bytes[i] == 0 {
            assert(bytes@[i as int] == 0u8);
            return true;
        }
        i = i + 1;
    }
    assert(!bytes@.contains(0u8)) by {
        if bytes@.contains(0u8) {
            let j = choose|j: int| 0 <= j < bytes@.len() && bytes@[j] == 0u8;
        }
    }
    false
}

/// The description of one metadata slot: its name, payload kind and unit.
#[derive(Clone, Copy, Debug)]
pub struct MarkerMetaDescriptor {
    name: &'static str,
    datatype: MarkerDataType,
    unit: MarkerDataUnit,
}

impl MarkerMetaDescriptor {
    /// The slot's name.
    pub closed spec fn spec_name(&self) -> &'static str {
        self.name
    }

    /// The slot's payload kind.
    pub closed spec fn spec_datatype(&self) -> MarkerDataType {
        self.datatype
    }

    /// The slot's unit.
    pub closed spec fn spec_unit(&self) -> MarkerDataUnit {
        self.unit
    }

    /// A descriptor is well formed when its name can be handed to the host.
    pub open spec fn wf(&self) -> bool {
        nul_free(self.spec_name())
    }

    /// Describes a slot. The name must hold no NUL.
    pub fn new(name: &'static str, datatype: MarkerDataType, unit: MarkerDataUnit) -> (r: Self)
        requires
            nul_free(name),
        ensures
            r.spec_name() == name,
            r.spec_datatype() == datatype,
            r.spec_unit() == unit,
            r.wf(),
    {
        MarkerMetaDescriptor { name, datatype, unit }
    }

    /// The slot's name.
    pub fn name(&self) -> (r: &'static str)
        ensures
            r == self.spec_name(),
    {
        self.name
    }

    /// The slot's payload kind.
    pub fn datatype(&self) -> (r: MarkerDataType)
        ensures
            r == self.spec_datatype(),
    {
        self.datatype
    }

    /// The slot's unit.
    pub fn unit(&self) -> (r: MarkerDataUnit)
        ensures
            r == self.spec_unit(),
    {
        self.unit
    }

    /// The slot's name as the host reads it: its bytes, then a NUL.
    pub fn name_c(&self) -> (r: Vec<u8>)
        ensures
            r@ == self.spec_name().spec_bytes().push(0u8),
    {
        let mut v = slice_to_vec(self.name.as_bytes());
        v.push(0u8);
        v
    }
}

/// One metadata value of an event.
///
/// Floating-point values are carried as their IEEE 754 bit patterns, which
/// is all the host's byte layout needs of them.
#[derive(Clone, Copy, Debug)]
pub enum MarkerMetaData<'a> {
    Int32(i32),
    Uint32(u32),
    Int64(i64),
    Uint64(u64),
    /// The bit pattern of an `f32`.
    Float(u32),
    /// The bit pattern of an `f64`.
    Double(u64),
    String(&'a str),
    Bytes(&'a [u8]),
}

/// The payload kind a value is tagged with.
pub open spec fn data_type_of(d: MarkerMetaData) -> MarkerDataType {
    match d {
        MarkerMetaData::Int32(_) => MarkerDataType::Int32,
        MarkerMetaData::Uint32(_) => MarkerDataType::Uint32,
        MarkerMetaData::Int64(_) => MarkerDataType::Int64,
        MarkerMetaData::Uint64(_) => MarkerDataType::Uint64,
        MarkerMetaData::Float(_) => MarkerDataType::Float,
        MarkerMetaData::Double(_) => MarkerDataType::Double,
        MarkerMetaData::String(_) => MarkerDataType::String,
        MarkerMetaData::Bytes(_) => MarkerDataType::Blob8,
    }
}

/// A value can be encoded: a text value holds no NUL, since the host reads it
/// up to its terminating NUL.
pub open spec fn data_wf(d: MarkerMetaData) -> bool {
    match d {
        MarkerMetaData::String(s) => nul_free(s),
        _ => true,
    }
}

/// The bytes the host reads for a value: little-endian for numbers, the text
/// and a terminating NUL for strings, the bytes themselves for blobs.
pub open spec fn encoded(d: MarkerMetaData) -> Seq<u8> {
    match d {
        MarkerMetaData::Int32(x) => spec_u32_to_le_bytes(x as u32),
        MarkerMetaData::Uint32(x) => spec_u32_to_le_bytes(x),
        MarkerMetaData::Int64(x) => spec_u64_to_le_bytes(x as u64),
        MarkerMetaData::Uint64(x) => spec_u64_to_le_bytes(x),
        MarkerMetaData::Float(x) => spec_u32_to_le_bytes(x),
        MarkerMetaData::Double(x) => spec_u64_to_le_bytes(x),
        MarkerMetaData::String(s) => s.spec_bytes().push(0u8),
        MarkerMetaData::Bytes(b) => b@,
    }
}

/// The natural width of a value's kind: 4 bytes for the 32-bit kinds, 8 for
/// the 64-bit kinds, the text's length and one for strings, and the exact
/// length of a blob.
pub open spec fn natural_width(d: MarkerMetaData) -> nat {
    match d {
        MarkerMetaData::Int32(_) => 4,
        MarkerMetaData::Uint32(_) => 4,
        MarkerMetaData::Int64(_) => 8,
        MarkerMetaData::Uint64(_) => 8,
        MarkerMetaData::Float(_) => 4,
        MarkerMetaData::Double(_) => 8,
        MarkerMetaData::String(s) => s.spec_bytes().len() + 1,
        MarkerMetaData::Bytes(b) => b@.len(),
    }
}

/// The encoding of every value has the natural width of its kind.
pub proof fn lemma_encoded_width(d: MarkerMetaData)
    ensures
        encoded(d).len() == natural_width(d),
{
    vstd::bytes::lemma_auto_spec_u32_to_from_le_bytes();
    vstd::bytes::lemma_auto_spec_u64_to_from_le_bytes();
}

impl<'a> MarkerMetaData<'a> {
    /// The payload kind this value is tagged with.
    pub fn data_type(&self) -> (r: MarkerDataType)
        ensures
            r == data_type_of(*self),
    {
        match self {
            MarkerMetaData::Int32(_) => MarkerDataType::Int32,
            MarkerMetaData::Uint32(_) => MarkerDataType::Uint32,
            MarkerMetaData::Int64(_) => MarkerDataType::Int64,
            MarkerMetaData::Uint64(_) => MarkerDataType::Uint64,
            MarkerMetaData::Float(_) => MarkerDataType::Float,
            MarkerMetaData::Double(_) => MarkerDataType::Double,
            MarkerMetaData::String(_) => MarkerDataType::String,
            MarkerMetaData::Bytes(_) => MarkerDataType::Blob8,
        }
    }

    /// The bytes the host reads for this value.
    pub fn to_c_compatible_bytes(self) -> (r: Vec<u8>)
        requires
            data_wf(self),
        ensures
            r@ == encoded(self),
            r@.len() == natural_width(self),
    {
        proof {
            lemma_encoded_width(self);
        }
        match self {
            MarkerMetaData::Int32(x) => u32_to_le_bytes(x as u32),
            MarkerMetaData::Uint32(x) => u32_to_le_bytes(x),
            MarkerMetaData::Int64(x) => u64_to_le_bytes(x as u64),
            MarkerMetaData::Uint64(x) => u64_to_le_bytes(x),
            MarkerMetaData::Float(x) => u32_to_le_bytes(x),
            MarkerMetaData::Double(x) => u64_to_le_bytes(x),
            MarkerMetaData::String(s) => {
                let mut v = slice_to_vec(s.as_bytes());
                v.push(0u8);
                v
            },
            MarkerMetaData::Bytes(b) => slice_to_vec(b),
        }
    }
}

} // verus!
