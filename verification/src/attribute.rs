//! Attribute values: the safe sum type that a type tag and a raw payload
//! decode to, and the adapter that walks a native attribute list.
use vstd::prelude::*;
use vstd::std_specs::convert::TryFromSpec;
use vstd::std_specs::convert::TryFromSpecImpl;
use crate::error::status_of;
use crate::error::StatusCode;
use crate::native::AttributeRef;
use crate::native::CallingContextRef;
use crate::native::CommRef;
use crate::native::ErrorCode;
use crate::native::GroupRef;
use crate::native::InterruptGeneratorRef;
use crate::native::IoFileRef;
use crate::native::IoHandleRef;
use crate::native::LocationGroupRef;
use crate::native::LocationRef;
use crate::native::MetricRef;
use crate::native::OTF2_SUCCESS;
use crate::native::ParameterRef;
use crate::native::RawValue;
use crate::native::RegionRef;
use crate::native::RmaWinRef;
use crate::native::SourceCodeLocationRef;
use crate::native::StringRef;
use crate::native::Type;
use crate::native::TypeEnum;

verus! {

/// The bits of a single precision number, as the payload held them.
#[derive(Clone, Copy, Debug, PartialEq, Eq, Structural, Hash)]
pub struct Float32Bits(pub u32);

/// The bits of a double precision number, as the payload held them.
#[derive(Clone, Copy, Debug, PartialEq, Eq, Structural, Hash)]
pub struct Float64Bits(pub u64);

/// A decoded attribute value: one variant for each kind of payload. The only
/// way from a raw payload to a value is `AttributeValue::new`, which reads
/// the one field that the type tag names.
#[derive(Clone, Copy, Debug, PartialEq, Eq, Structural)]
pub enum AttributeValue {
    /// No payload: the tag named no type.
    Empty,
    Uint8(u8),
    Uint16(u16),
    Uint32(u32),
    Uint64(u64),
    Int8(i8),
    Int16(i16),
    Int32(i32),
    Int64(i64),
    Float32(Float32Bits),
    Float64(Float64Bits),
    String(StringRef),
    Attribute(AttributeRef),
    Location(LocationRef),
    Region(RegionRef),
    Group(GroupRef),
    Metric(MetricRef),
    Comm(CommRef),
    Parameter(ParameterRef),
    RmaWin(RmaWinRef),
    SourceCodeLocation(SourceCodeLocationRef),
    CallingContext(CallingContextRef),
    InterruptGenerator(InterruptGeneratorRef),
    IoFile(IoFileRef),
    IoHandle(IoHandleRef),
    LocationGroup(LocationGroupRef),
}

/// The request for a payload of one type met a value of another.
#[derive(Clone, Copy, Debug, PartialEq, Eq)]
pub struct TypeMismatch {
    /// The name of the type asked for.
    pub expected: &'static str,
    /// The name of the type that the value holds.
    pub actual: &'static str,
}

/// The mismatch of a request for the type named `expected` with a value of
/// the type named `actual`.
pub open spec fn mismatch(expected: &'static str, actual: &'static str) -> TypeMismatch {
    TypeMismatch { expected, actual }
}

/// The value that the payload `value` holds when read as the tag `kind`
/// says: the one matching field, in the matching variant, and `Empty` for a
/// tag that names no type.
pub open spec fn decode(kind: Type, value: RawValue) -> AttributeValue {
    match kind.spec_to_enum() {
        TypeEnum::Empty => AttributeValue::Empty,
        TypeEnum::Uint8 => AttributeValue::Uint8(value.spec_uint8()),
        TypeEnum::Uint16 => AttributeValue::Uint16(value.spec_uint16()),
        TypeEnum::Uint32 => AttributeValue::Uint32(value.spec_uint32()),
        TypeEnum::Uint64 => AttributeValue::Uint64(value.spec_uint64()),
        TypeEnum::Int8 => AttributeValue::Int8(value.spec_int8()),
        TypeEnum::Int16 => AttributeValue::Int16(value.spec_int16()),
        TypeEnum::Int32 => AttributeValue::Int32(value.spec_int32()),
        TypeEnum::Int64 => AttributeValue::Int64(value.spec_int64()),
        TypeEnum::Float => AttributeValue::Float32(Float32Bits(value.spec_uint32())),
        TypeEnum::Double => AttributeValue::Float64(Float64Bits(value.spec_uint64())),
        TypeEnum::String => AttributeValue::String(StringRef(value.spec_uint32())),
        TypeEnum::Attribute => AttributeValue::Attribute(AttributeRef(value.spec_uint32())),
        TypeEnum::Location => AttributeValue::Location(LocationRef(value.spec_uint64())),
        TypeEnum::Region => AttributeValue::Region(RegionRef(value.spec_uint32())),
        TypeEnum::Group => AttributeValue::Group(GroupRef(value.spec_uint32())),
        TypeEnum::Metric => AttributeValue::Metric(MetricRef(value.spec_uint32())),
        TypeEnum::Comm => AttributeValue::Comm(CommRef(value.spec_uint32())),
        TypeEnum::Parameter => AttributeValue::Parameter(ParameterRef(value.spec_uint32())),
        TypeEnum::RmaWin => AttributeValue::RmaWin(RmaWinRef(value.spec_uint32())),
        TypeEnum::SourceCodeLocation => AttributeValue::SourceCodeLocation(
            SourceCodeLocationRef(value.spec_uint32()),
        ),
        TypeEnum::CallingContext => AttributeValue::CallingContext(
            CallingContextRef(value.spec_uint32()),
        ),
        TypeEnum::InterruptGenerator => AttributeValue::InterruptGenerator(
            InterruptGeneratorRef(value.spec_uint32()),
        ),
        TypeEnum::IoFile => AttributeValue::IoFile(IoFileRef(value.spec_uint32())),
        TypeEnum::IoHandle => AttributeValue::IoHandle(IoHandleRef(value.spec_uint32())),
        TypeEnum::LocationGroup => AttributeValue::LocationGroup(
            LocationGroupRef(value.spec_uint32()),
        ),
    }
}

impl AttributeValue {
    /// The tag under which this value is stored.
    pub open spec fn spec_kind(self) -> TypeEnum {
        match self {
            AttributeValue::Empty => TypeEnum::Empty,
            AttributeValue::Uint8(_) => TypeEnum::Uint8,
            AttributeValue::Uint16(_) => TypeEnum::Uint16,
            AttributeValue::Uint32(_) => TypeEnum::Uint32,
            AttributeValue::Uint64(_) => TypeEnum::Uint64,
            AttributeValue::Int8(_) => TypeEnum::Int8,
            AttributeValue::Int16(_) => TypeEnum::Int16,
            AttributeValue::Int32(_) => TypeEnum::Int32,
            AttributeValue::Int64(_) => TypeEnum::Int64,
            AttributeValue::Float32(_) => TypeEnum::Float,
            AttributeValue::Float64(_) => TypeEnum::Double,
            AttributeValue::String(_) => TypeEnum::String,
            AttributeValue::Attribute(_) => TypeEnum::Attribute,
            AttributeValue::Location(_) => TypeEnum::Location,
            AttributeValue::Region(_) => TypeEnum::Region,
            AttributeValue::Group(_) => TypeEnum::Group,
            AttributeValue::Metric(_) => TypeEnum::Metric,
            AttributeValue::Comm(_) => TypeEnum::Comm,
            AttributeValue::Parameter(_) => TypeEnum::Parameter,
            AttributeValue::RmaWin(_) => TypeEnum::RmaWin,
            AttributeValue::SourceCodeLocation(_) => TypeEnum::SourceCodeLocation,
            AttributeValue::CallingContext(_) => TypeEnum::CallingContext,
            AttributeValue::InterruptGenerator(_) => TypeEnum::InterruptGenerator,
            AttributeValue::IoFile(_) => TypeEnum::IoFile,
            AttributeValue::IoHandle(_) => TypeEnum::IoHandle,
            AttributeValue::LocationGroup(_) => TypeEnum::LocationGroup,
        }
    }

    /// The declared name of the payload's type.
    pub open spec fn spec_kind_name(self) -> &'static str {
        match self {
            AttributeValue::Empty => "()",
            AttributeValue::Uint8(_) => "u8",
            AttributeValue::Uint16(_) => "u16",
            AttributeValue::Uint32(_) => "u32",
            AttributeValue::Uint64(_) => "u64",
            AttributeValue::Int8(_) => "i8",
            AttributeValue::Int16(_) => "i16",
            AttributeValue::Int32(_) => "i32",
            AttributeValue::Int64(_) => "i64",
            AttributeValue::Float32(_) => "f32",
            AttributeValue::Float64(_) => "f64",
            AttributeValue::String(_) => "StringRef",
            AttributeValue::Attribute(_) => "AttributeRef",
            AttributeValue::Location(_) => "LocationRef",
            AttributeValue::Region(_) => "RegionRef",
            AttributeValue::Group(_) => "GroupRef",
            AttributeValue::Metric(_) => "MetricRef",
            AttributeValue::Comm(_) => "CommRef",
            AttributeValue::Parameter(_) => "ParameterRef",
            AttributeValue::RmaWin(_) => "RmaWinRef",
            AttributeValue::SourceCodeLocation(_) => "SourceCodeLocationRef",
            AttributeValue::CallingContext(_) => "CallingContextRef",
            AttributeValue::InterruptGenerator(_) => "InterruptGeneratorRef",
            AttributeValue::IoFile(_) => "IoFileRef",
            AttributeValue::IoHandle(_) => "IoHandleRef",
            AttributeValue::LocationGroup(_) => "LocationGroupRef",
        }
    }

    /// Decodes a raw payload: reads the field of `value` that `kind` names
    /// and wraps it in the variant of that type. A tag that names no type
    /// gives `Empty`.
    pub fn new(kind: Type, value: RawValue) -> (decoded: Self)
        ensures
            decoded == decode(kind, value),
            decoded.spec_kind() == kind.spec_to_enum(),
    {
        match kind.to_enum() {
            TypeEnum::Empty => AttributeValue::Empty,
            TypeEnum::Uint8 => AttributeValue::Uint8(value.uint8()),
            TypeEnum::Uint16 => AttributeValue::Uint16(value.uint16()),
            TypeEnum::Uint32 => AttributeValue::Uint32(value.uint32()),
            TypeEnum::Uint64 => AttributeValue::Uint64(value.uint64()),
            TypeEnum::Int8 => AttributeValue::Int8(value.int8()),
            TypeEnum::Int16 => AttributeValue::Int16(value.int16()),
            TypeEnum::Int32 => AttributeValue::Int32(value.int32()),
            TypeEnum::Int64 => AttributeValue::Int64(value.int64()),
            TypeEnum::Float => AttributeValue::Float32(Float32Bits(value.uint32())),
            TypeEnum::Double => AttributeValue::Float64(Float64Bits(value.uint64())),
            TypeEnum::String => AttributeValue::String(StringRef(value.uint32())),
            TypeEnum::Attribute => AttributeValue::Attribute(AttributeRef(value.uint32())),
            TypeEnum::Location => AttributeValue::Location(LocationRef(value.uint64())),
            TypeEnum::Region => AttributeValue::Region(RegionRef(value.uint32())),
            TypeEnum::Group => AttributeValue::Group(GroupRef(value.uint32())),
            TypeEnum::Metric => AttributeValue::Metric(MetricRef(value.uint32())),
            TypeEnum::Comm => AttributeValue::Comm(CommRef(value.uint32())),
            TypeEnum::Parameter => AttributeValue::Parameter(ParameterRef(value.uint32())),
            TypeEnum::RmaWin => AttributeValue::RmaWin(RmaWinRef(value.uint32())),
            TypeEnum::SourceCodeLocation => AttributeValue::SourceCodeLocation(
                SourceCodeLocationRef(value.uint32()),
            ),
            TypeEnum::CallingContext => AttributeValue::CallingContext(
                CallingContextRef(value.uint32()),
            ),
            TypeEnum::InterruptGenerator => AttributeValue::InterruptGenerator(
                InterruptGeneratorRef(value.uint32()),
            ),
            TypeEnum::IoFile => AttributeValue::IoFile(IoFileRef(value.uint32())),
            TypeEnum::IoHandle => AttributeValue::IoHandle(IoHandleRef(value.uint32())),
            TypeEnum::LocationGroup => AttributeValue::LocationGroup(
                LocationGroupRef(value.uint32()),
            ),
        }
    }

    /// The tag under which this value is stored.
    pub fn kind(&self) -> (tag: TypeEnum)
        ensures
            tag == self.spec_kind(),
    {
        match self {
            AttributeValue::Empty => TypeEnum::Empty,
            AttributeValue::Uint8(_) => TypeEnum::Uint8,
            AttributeValue::Uint16(_) => TypeEnum::Uint16,
            AttributeValue::Uint32(_) => TypeEnum::Uint32,
            AttributeValue::Uint64(_) => TypeEnum::Uint64,
            AttributeValue::Int8(_) => TypeEnum::Int8,
            AttributeValue::Int16(_) => TypeEnum::Int16,
            AttributeValue::Int32(_) => TypeEnum::Int32,
            AttributeValue::Int64(_) => TypeEnum::Int64,
            AttributeValue::Float32(_) => TypeEnum::Float,
            AttributeValue::Float64(_) => TypeEnum::Double,
            AttributeValue::String(_) => TypeEnum::String,
            AttributeValue::Attribute(_) => TypeEnum::Attribute,
            AttributeValue::Location(_) => TypeEnum::Location,
            AttributeValue::Region(_) => TypeEnum::Region,
            AttributeValue::Group(_) => TypeEnum::Group,
            AttributeValue::Metric(_) => TypeEnum::Metric,
            AttributeValue::Comm(_) => TypeEnum::Comm,
            AttributeValue::Parameter(_) => TypeEnum::Parameter,
            AttributeValue::RmaWin(_) => TypeEnum::RmaWin,
            AttributeValue::SourceCodeLocation(_) => TypeEnum::SourceCodeLocation,
            AttributeValue::CallingContext(_) => TypeEnum::CallingContext,
            AttributeValue::InterruptGenerator(_) => TypeEnum::InterruptGenerator,
            AttributeValue::IoFile(_) => TypeEnum::IoFile,
            AttributeValue::IoHandle(_) => TypeEnum::IoHandle,
            AttributeValue::LocationGroup(_) => TypeEnum::LocationGroup,
        }
    }

    /// The declared name of the payload's type, for diagnostics.
    pub fn kind_name(&self) -> (name: &'static str)
        ensures
            name == self.spec_kind_name(),
    {
        match self {
            AttributeValue::Empty => "()",
            AttributeValue::Uint8(_) => "u8",
            AttributeValue::Uint16(_) => "u16",
            AttributeValue::Uint32(_) => "u32",
            AttributeValue::Uint64(_) => "u64",
            AttributeValue::Int8(_) => "i8",
            AttributeValue::Int16(_) => "i16",
            AttributeValue::Int32(_) => "i32",
            AttributeValue::Int64(_) => "i64",
            AttributeValue::Float32(_) => "f32",
            AttributeValue::Float64(_) => "f64",
            AttributeValue::String(_) => "StringRef",
            AttributeValue::Attribute(_) => "AttributeRef",
            AttributeValue::Location(_) => "LocationRef",
            AttributeValue::Region(_) => "RegionRef",
            AttributeValue::Group(_) => "GroupRef",
            AttributeValue::Metric(_) => "MetricRef",
            AttributeValue::Comm(_) => "CommRef",
            AttributeValue::Parameter(_) => "ParameterRef",
            AttributeValue::RmaWin(_) => "RmaWinRef",
            AttributeValue::SourceCodeLocation(_) => "SourceCodeLocationRef",
            AttributeValue::CallingContext(_) => "CallingContextRef",
            AttributeValue::InterruptGenerator(_) => "InterruptGeneratorRef",
            AttributeValue::IoFile(_) => "IoFileRef",
            AttributeValue::IoHandle(_) => "IoHandleRef",
            AttributeValue::LocationGroup(_) => "LocationGroupRef",
        }
    }
}

/// Decoding inverts construction: a payload made to hold `v` in the field of
/// a type decodes, under that type's tag, to the variant of that type around
/// `v`. This holds for every type the engine knows.
pub proof fn lemma_decode_round_trip()
    ensures
        forall|v: u8| #[trigger]
            decode(
                Type(TypeEnum::Uint8.spec_number()),
                RawValue::spec_from_uint8(v),
            ) == AttributeValue::Uint8(v),
        forall|v: u16| #[trigger]
            decode(
                Type(TypeEnum::Uint16.spec_number()),
                RawValue::spec_from_uint16(v),
            ) == AttributeValue::Uint16(v),
        forall|v: u32| #[trigger]
            decode(
                Type(TypeEnum::Uint32.spec_number()),
                RawValue::spec_from_uint32(v),
            ) == AttributeValue::Uint32(v),
        forall|v: u64| #[trigger]
            decode(
                Type(TypeEnum::Uint64.spec_number()),
                RawValue::spec_from_uint64(v),
            ) == AttributeValue::Uint64(v),
        forall|v: i8| #[trigger]
            decode(
                Type(TypeEnum::Int8.spec_number()),
                RawValue::spec_from_int8(v),
            ) == AttributeValue::Int8(v),
        forall|v: i16| #[trigger]
            decode(
                Type(TypeEnum::Int16.spec_number()),
                RawValue::spec_from_int16(v),
            ) == AttributeValue::Int16(v),
        forall|v: i32| #[trigger]
            decode(
                Type(TypeEnum::Int32.spec_number()),
                RawValue::spec_from_int32(v),
            ) == AttributeValue::Int32(v),
        forall|v: i64| #[trigger]
            decode(
                Type(TypeEnum::Int64.spec_number()),
                RawValue::spec_from_int64(v),
            ) == AttributeValue::Int64(v),
        forall|v: Float32Bits| #[trigger]
            decode(
                Type(TypeEnum::Float.spec_number()),
                RawValue::spec_from_uint32(v.0),
            ) == AttributeValue::Float32(v),
        forall|v: Float64Bits| #[trigger]
            decode(
                Type(TypeEnum::Double.spec_number()),
                RawValue::spec_from_uint64(v.0),
            ) == AttributeValue::Float64(v),
        forall|v: StringRef| #[trigger]
            decode(
                Type(TypeEnum::String.spec_number()),
                RawValue::spec_from_uint32(v.0),
            ) == AttributeValue::String(v),
        forall|v: AttributeRef| #[trigger]
            decode(
                Type(TypeEnum::Attribute.spec_number()),
                RawValue::spec_from_uint32(v.0),
            ) == AttributeValue::Attribute(v),
        forall|v: LocationRef| #[trigger]
            decode(
                Type(TypeEnum::Location.spec_number()),
                RawValue::spec_from_uint64(v.0),
            ) == AttributeValue::Location(v),
        forall|v: RegionRef| #[trigger]
            decode(
                Type(TypeEnum::Region.spec_number()),
                RawValue::spec_from_uint32(v.0),
            ) == AttributeValue::Region(v),
        forall|v: GroupRef| #[trigger]
            decode(
                Type(TypeEnum::Group.spec_number()),
                RawValue::spec_from_uint32(v.0),
            ) == AttributeValue::Group(v),
        forall|v: MetricRef| #[trigger]
            decode(
                Type(TypeEnum::Metric.spec_number()),
                RawValue::spec_from_uint32(v.0),
            ) == AttributeValue::Metric(v),
        forall|v: CommRef| #[trigger]
            decode(
                Type(TypeEnum::Comm.spec_number()),
                RawValue::spec_from_uint32(v.0),
            ) == AttributeValue::Comm(v),
        forall|v: ParameterRef| #[trigger]
            decode(
                Type(TypeEnum::Parameter.spec_number()),
                RawValue::spec_from_uint32(v.0),
            ) == AttributeValue::Parameter(v),
        forall|v: RmaWinRef| #[trigger]
            decode(
                Type(TypeEnum::RmaWin.spec_number()),
                RawValue::spec_from_uint32(v.0),
            ) == AttributeValue::RmaWin(v),
        forall|v: SourceCodeLocationRef| #[trigger]
            decode(
                Type(TypeEnum::SourceCodeLocation.spec_number()),
                RawValue::spec_from_uint32(v.0),
            ) == AttributeValue::SourceCodeLocation(v),
        forall|v: CallingContextRef| #[trigger]
            decode(
                Type(TypeEnum::CallingContext.spec_number()),
                RawValue::spec_from_uint32(v.0),
            ) == AttributeValue::CallingContext(v),
        forall|v: InterruptGeneratorRef| #[trigger]
            decode(
                Type(TypeEnum::InterruptGenerator.spec_number()),
                RawValue::spec_from_uint32(v.0),
            ) == AttributeValue::InterruptGenerator(v),
        forall|v: IoFileRef| #[trigger]
            decode(
                Type(TypeEnum::IoFile.spec_number()),
                RawValue::spec_from_uint32(v.0),
            ) == AttributeValue::IoFile(v),
        forall|v: IoHandleRef| #[trigger]
            decode(
                Type(TypeEnum::IoHandle.spec_number()),
                RawValue::spec_from_uint32(v.0),
            ) == AttributeValue::IoHandle(v),
        forall|v: LocationGroupRef| #[trigger]
            decode(
                Type(TypeEnum::LocationGroup.spec_number()),
                RawValue::spec_from_uint32(v.0),
            ) == AttributeValue::LocationGroup(v),
        forall|value: RawValue| #[trigger]
            decode(Type(TypeEnum::Empty.spec_number()), value) == AttributeValue::Empty,
        forall|n: u8, value: RawValue|
            n > 25 ==> #[trigger] decode(Type(n), value) == AttributeValue::Empty,
{
}

impl TryFrom<AttributeValue> for u8 {
    type Error = TypeMismatch;

    fn try_from(value: AttributeValue) -> (r: Result<Self, TypeMismatch>) {
        match value {
            AttributeValue::Uint8(v) => Ok(v),
            other => {
                Err(TypeMismatch { expected: "u8", actual: other.kind_name() })
            },
        }
    }
}

impl TryFromSpecImpl<AttributeValue> for u8 {
    open spec fn obeys_try_from_spec() -> bool {
        true
    }

    open spec fn try_from_spec(value: AttributeValue) -> Result<Self, TypeMismatch> {
        match value {
            AttributeValue::Uint8(v) => Ok(v),
            other => Err(mismatch("u8", other.spec_kind_name())),
        }
    }
}

impl TryFrom<AttributeValue> for u16 {
    type Error = TypeMismatch;

    fn try_from(value: AttributeValue) -> (r: Result<Self, TypeMismatch>) {
        match value {
            AttributeValue::Uint16(v) => Ok(v),
            other => {
                Err(TypeMismatch { expected: "u16", actual: other.kind_name() })
            },
        }
    }
}

impl TryFromSpecImpl<AttributeValue> for u16 {
    open spec fn obeys_try_from_spec() -> bool {
        true
    }

    open spec fn try_from_spec(value: AttributeValue) -> Result<Self, TypeMismatch> {
        match value {
            AttributeValue::Uint16(v) => Ok(v),
            other => Err(mismatch("u16", other.spec_kind_name())),
        }
    }
}

impl TryFrom<AttributeValue> for u32 {
    type Error = TypeMismatch;

    fn try_from(value: AttributeValue) -> (r: Result<Self, TypeMismatch>) {
        match value {
            AttributeValue::Uint32(v) => Ok(v),
            other => {
                Err(TypeMismatch { expected: "u32", actual: other.kind_name() })
            },
        }
    }
}

impl TryFromSpecImpl<AttributeValue> for u32 {
    open spec fn obeys_try_from_spec() -> bool {
        true
    }

    open spec fn try_from_spec(value: AttributeValue) -> Result<Self, TypeMismatch> {
        match value {
            AttributeValue::Uint32(v) => Ok(v),
            other => Err(mismatch("u32", other.spec_kind_name())),
        }
    }
}

impl TryFrom<AttributeValue> for u64 {
    type Error = TypeMismatch;

    fn try_from(value: AttributeValue) -> (r: Result<Self, TypeMismatch>) {
        match value {
            AttributeValue::Uint64(v) => Ok(v),
            other => {
                Err(TypeMismatch { expected: "u64", actual: other.kind_name() })
            },
        }
    }
}

impl TryFromSpecImpl<AttributeValue> for u64 {
    open spec fn obeys_try_from_spec() -> bool {
        true
    }

    open spec fn try_from_spec(value: AttributeValue) -> Result<Self, TypeMismatch> {
        match value {
            AttributeValue::Uint64(v) => Ok(v),
            other => Err(mismatch("u64", other.spec_kind_name())),
        }
    }
}

impl TryFrom<AttributeValue> for i8 {
    type Error = TypeMismatch;

    fn try_from(value: AttributeValue) -> (r: Result<Self, TypeMismatch>) {
        match value {
            AttributeValue::Int8(v) => Ok(v),
            other => {
                Err(TypeMismatch { expected: "i8", actual: other.kind_name() })
            },
        }
    }
}

impl TryFromSpecImpl<AttributeValue> for i8 {
    open spec fn obeys_try_from_spec() -> bool {
        true
    }

    open spec fn try_from_spec(value: AttributeValue) -> Result<Self, TypeMismatch> {
        match value {
            AttributeValue::Int8(v) => Ok(v),
            other => Err(mismatch("i8", other.spec_kind_name())),
        }
    }
}

impl TryFrom<AttributeValue> for i16 {
    type Error = TypeMismatch;

    fn try_from(value: AttributeValue) -> (r: Result<Self, TypeMismatch>) {
        match value {
            AttributeValue::Int16(v) => Ok(v),
            other => {
                Err(TypeMismatch { expected: "i16", actual: other.kind_name() })
            },
        }
    }
}

impl TryFromSpecImpl<AttributeValue> for i16 {
    open spec fn obeys_try_from_spec() -> bool {
        true
    }

    open spec fn try_from_spec(value: AttributeValue) -> Result<Self, TypeMismatch> {
        match value {
            AttributeValue::Int16(v) => Ok(v),
            other => Err(mismatch("i16", other.spec_kind_name())),
        }
    }
}

impl TryFrom<AttributeValue> for i32 {
    type Error = TypeMismatch;

    fn try_from(value: AttributeValue) -> (r: Result<Self, TypeMismatch>) {
        match value {
            AttributeValue::Int32(v) => Ok(v),
            other => {
                Err(TypeMismatch { expected: "i32", actual: other.kind_name() })
            },
        }
    }
}

impl TryFromSpecImpl<AttributeValue> for i32 {
    open spec fn obeys_try_from_spec() -> bool {
        true
    }

    open spec fn try_from_spec(value: AttributeValue) -> Result<Self, TypeMismatch> {
        match value {
            AttributeValue::Int32(v) => Ok(v),
            other => Err(mismatch("i32", other.spec_kind_name())),
        }
    }
}

impl TryFrom<AttributeValue> for i64 {
    type Error = TypeMismatch;

    fn try_from(value: AttributeValue) -> (r: Result<Self, TypeMismatch>) {
        match value {
            AttributeValue::Int64(v) => Ok(v),
            other => {
                Err(TypeMismatch { expected: "i64", actual: other.kind_name() })
            },
        }
    }
}

impl TryFromSpecImpl<AttributeValue> for i64 {
    open spec fn obeys_try_from_spec() -> bool {
        true
    }

    open spec fn try_from_spec(value: AttributeValue) -> Result<Self, TypeMismatch> {
        match value {
            AttributeValue::Int64(v) => Ok(v),
            other => Err(mismatch("i64", other.spec_kind_name())),
        }
    }
}

impl TryFrom<AttributeValue> for Float32Bits {
    type Error = TypeMismatch;

    fn try_from(value: AttributeValue) -> (r: Result<Self, TypeMismatch>) {
        match value {
            AttributeValue::Float32(v) => Ok(v),
            other => {
                Err(TypeMismatch { expected: "f32", actual: other.kind_name() })
            },
        }
    }
}

impl TryFromSpecImpl<AttributeValue> for Float32Bits {
    open spec fn obeys_try_from_spec() -> bool {
        true
    }

    open spec fn try_from_spec(value: AttributeValue) -> Result<Self, TypeMismatch> {
        match value {
            AttributeValue::Float32(v) => Ok(v),
            other => Err(mismatch("f32", other.spec_kind_name())),
        }
    }
}

impl TryFrom<AttributeValue> for Float64Bits {
    type Error = TypeMismatch;

    fn try_from(value: AttributeValue) -> (r: Result<Self, TypeMismatch>) {
        match value {
            AttributeValue::Float64(v) => Ok(v),
            other => {
                Err(TypeMismatch { expected: "f64", actual: other.kind_name() })
            },
        }
    }
}

impl TryFromSpecImpl<AttributeValue> for Float64Bits {
    open spec fn obeys_try_from_spec() -> bool {
        true
    }

    open spec fn try_from_spec(value: AttributeValue) -> Result<Self, TypeMismatch> {
        match value {
            AttributeValue::Float64(v) => Ok(v),
            other => Err(mismatch("f64", other.spec_kind_name())),
        }
    }
}

impl TryFrom<AttributeValue> for StringRef {
    type Error = TypeMismatch;

    fn try_from(value: AttributeValue) -> (r: Result<Self, TypeMismatch>) {
        match value {
            AttributeValue::String(v) => Ok(v),
            other => {
                Err(TypeMismatch { expected: "StringRef", actual: other.kind_name() })
            },
        }
    }
}

impl TryFromSpecImpl<AttributeValue> for StringRef {
    open spec fn obeys_try_from_spec() -> bool {
        true
    }

    open spec fn try_from_spec(value: AttributeValue) -> Result<Self, TypeMismatch> {
        match value {
            AttributeValue::String(v) => Ok(v),
            other => Err(mismatch("StringRef", other.spec_kind_name())),
        }
    }
}

impl TryFrom<AttributeValue> for AttributeRef {
    type Error = TypeMismatch;

    fn try_from(value: AttributeValue) -> (r: Result<Self, TypeMismatch>) {
        match value {
            AttributeValue::Attribute(v) => Ok(v),
            other => {
                Err(TypeMismatch { expected: "AttributeRef", actual: other.kind_name() })
            },
        }
    }
}

impl TryFromSpecImpl<AttributeValue> for AttributeRef {
    open spec fn obeys_try_from_spec() -> bool {
        true
    }

    open spec fn try_from_spec(value: AttributeValue) -> Result<Self, TypeMismatch> {
        match value {
            AttributeValue::Attribute(v) => Ok(v),
            other => Err(mismatch("AttributeRef", other.spec_kind_name())),
        }
    }
}

impl TryFrom<AttributeValue> for LocationRef {
    type Error = TypeMismatch;

    fn try_from(value: AttributeValue) -> (r: Result<Self, TypeMismatch>) {
        match value {
            AttributeValue::Location(v) => Ok(v),
            other => {
                Err(TypeMismatch { expected: "LocationRef", actual: other.kind_name() })
            },
        }
    }
}

impl TryFromSpecImpl<AttributeValue> for LocationRef {
    open spec fn obeys_try_from_spec() -> bool {
        true
    }

    open spec fn try_from_spec(value: AttributeValue) -> Result<Self, TypeMismatch> {
        match value {
            AttributeValue::Location(v) => Ok(v),
            other => Err(mismatch("LocationRef", other.spec_kind_name())),
        }
    }
}

impl TryFrom<AttributeValue> for RegionRef {
    type Error = TypeMismatch;

    fn try_from(value: AttributeValue) -> (r: Result<Self, TypeMismatch>) {
        match value {
            AttributeValue::Region(v) => Ok(v),
            other => {
                Err(TypeMismatch { expected: "RegionRef", actual: other.kind_name() })
            },
        }
    }
}

impl TryFromSpecImpl<AttributeValue> for RegionRef {
    open spec fn obeys_try_from_spec() -> bool {
        true
    }

    open spec fn try_from_spec(value: AttributeValue) -> Result<Self, TypeMismatch> {
        match value {
            AttributeValue::Region(v) => Ok(v),
            other => Err(mismatch("RegionRef", other.spec_kind_name())),
        }
    }
}

impl TryFrom<AttributeValue> for GroupRef {
    type Error = TypeMismatch;

    fn try_from(value: AttributeValue) -> (r: Result<Self, TypeMismatch>) {
        match value {
            AttributeValue::Group(v) => Ok(v),
            other => {
                Err(TypeMismatch { expected: "GroupRef", actual: other.kind_name() })
            },
        }
    }
}

impl TryFromSpecImpl<AttributeValue> for GroupRef {
    open spec fn obeys_try_from_spec() -> bool {
        true
    }

    open spec fn try_from_spec(value: AttributeValue) -> Result<Self, TypeMismatch> {
        match value {
            AttributeValue::Group(v) => Ok(v),
            other => Err(mismatch("GroupRef", other.spec_kind_name())),
        }
    }
}

impl TryFrom<AttributeValue> for MetricRef {
    type Error = TypeMismatch;

    fn try_from(value: AttributeValue) -> (r: Result<Self, TypeMismatch>) {
        match value {
            AttributeValue::Metric(v) => Ok(v),
            other => {
                Err(TypeMismatch { expected: "MetricRef", actual: other.kind_name() })
            },
        }
    }
}

impl TryFromSpecImpl<AttributeValue> for MetricRef {
    open spec fn obeys_try_from_spec() -> bool {
        true
    }

    open spec fn try_from_spec(value: AttributeValue) -> Result<Self, TypeMismatch> {
        match value {
            AttributeValue::Metric(v) => Ok(v),
            other => Err(mismatch("MetricRef", other.spec_kind_name())),
        }
    }
}

impl TryFrom<AttributeValue> for CommRef {
    type Error = TypeMismatch;

    fn try_from(value: AttributeValue) -> (r: Result<Self, TypeMismatch>) {
        match value {
            AttributeValue::Comm(v) => Ok(v),
            other => {
                Err(TypeMismatch { expected: "CommRef", actual: other.kind_name() })
            },
        }
    }
}

impl TryFromSpecImpl<AttributeValue> for CommRef {
    open spec fn obeys_try_from_spec() -> bool {
        true
    }

    open spec fn try_from_spec(value: AttributeValue) -> Result<Self, TypeMismatch> {
        match value {
            AttributeValue::Comm(v) => Ok(v),
            other => Err(mismatch("CommRef", other.spec_kind_name())),
        }
    }
}

impl TryFrom<AttributeValue> for ParameterRef {
    type Error = TypeMismatch;

    fn try_from(value: AttributeValue) -> (r: Result<Self, TypeMismatch>) {
        match value {
            AttributeValue::Parameter(v) => Ok(v),
            other => {
                Err(TypeMismatch { expected: "ParameterRef", actual: other.kind_name() })
            },
        }
    }
}

impl TryFromSpecImpl<AttributeValue> for ParameterRef {
    open spec fn obeys_try_from_spec() -> bool {
        true
    }

    open spec fn try_from_spec(value: AttributeValue) -> Result<Self, TypeMismatch> {
        match value {
            AttributeValue::Parameter(v) => Ok(v),
            other => Err(mismatch("ParameterRef", other.spec_kind_name())),
        }
    }
}

impl TryFrom<AttributeValue> for RmaWinRef {
    type Error = TypeMismatch;

    fn try_from(value: AttributeValue) -> (r: Result<Self, TypeMismatch>) {
        match value {
            AttributeValue::RmaWin(v) => Ok(v),
            other => {
                Err(TypeMismatch { expected: "RmaWinRef", actual: other.kind_name() })
            },
        }
    }
}

impl TryFromSpecImpl<AttributeValue> for RmaWinRef {
    open spec fn obeys_try_from_spec() -> bool {
        true
    }

    open spec fn try_from_spec(value: AttributeValue) -> Result<Self, TypeMismatch> {
        match value {
            AttributeValue::RmaWin(v) => Ok(v),
            other => Err(mismatch("RmaWinRef", other.spec_kind_name())),
        }
    }
}

impl TryFrom<AttributeValue> for SourceCodeLocationRef {
    type Error = TypeMismatch;

    fn try_from(value: AttributeValue) -> (r: Result<Self, TypeMismatch>) {
        match value {
            AttributeValue::SourceCodeLocation(v) => Ok(v),
            other => {
                Err(TypeMismatch { expected: "SourceCodeLocationRef", actual: other.kind_name() })
            },
        }
    }
}

impl TryFromSpecImpl<AttributeValue> for SourceCodeLocationRef {
    open spec fn obeys_try_from_spec() -> bool {
        true
    }

    open spec fn try_from_spec(value: AttributeValue) -> Result<Self, TypeMismatch> {
        match value {
            AttributeValue::SourceCodeLocation(v) => Ok(v),
            other => Err(mismatch("SourceCodeLocationRef", other.spec_kind_name())),
        }
    }
}

impl TryFrom<AttributeValue> for CallingContextRef {
    type Error = TypeMismatch;

    fn try_from(value: AttributeValue) -> (r: Result<Self, TypeMismatch>) {
        match value {
            AttributeValue::CallingContext(v) => Ok(v),
            other => {
                Err(TypeMismatch { expected: "CallingContextRef", actual: other.kind_name() })
            },
        }
    }
}

impl TryFromSpecImpl<AttributeValue> for CallingContextRef {
    open spec fn obeys_try_from_spec() -> bool {
        true
    }

    open spec fn try_from_spec(value: AttributeValue) -> Result<Self, TypeMismatch> {
        match value {
            AttributeValue::CallingContext(v) => Ok(v),
            other => Err(mismatch("CallingContextRef", other.spec_kind_name())),
        }
    }
}

impl TryFrom<AttributeValue> for InterruptGeneratorRef {
    type Error = TypeMismatch;

    fn try_from(value: AttributeValue) -> (r: Result<Self, TypeMismatch>) {
        match value {
            AttributeValue::InterruptGenerator(v) => Ok(v),
            other => {
                Err(TypeMismatch { expected: "InterruptGeneratorRef", actual: other.kind_name() })
            },
        }
    }
}

impl TryFromSpecImpl<AttributeValue> for InterruptGeneratorRef {
    open spec fn obeys_try_from_spec() -> bool {
        true
    }

    open spec fn try_from_spec(value: AttributeValue) -> Result<Self, TypeMismatch> {
        match value {
            AttributeValue::InterruptGenerator(v) => Ok(v),
            other => Err(mismatch("InterruptGeneratorRef", other.spec_kind_name())),
        }
    }
}

impl TryFrom<AttributeValue> for IoFileRef {
    type Error = TypeMismatch;

    fn try_from(value: AttributeValue) -> (r: Result<Self, TypeMismatch>) {
        match value {
            AttributeValue::IoFile(v) => Ok(v),
            other => {
                Err(TypeMismatch { expected: "IoFileRef", actual: other.kind_name() })
            },
        }
    }
}

impl TryFromSpecImpl<AttributeValue> for IoFileRef {
    open spec fn obeys_try_from_spec() -> bool {
        true
    }

    open spec fn try_from_spec(value: AttributeValue) -> Result<Self, TypeMismatch> {
        match value {
            AttributeValue::IoFile(v) => Ok(v),
            other => Err(mismatch("IoFileRef", other.spec_kind_name())),
        }
    }
}

impl TryFrom<AttributeValue> for IoHandleRef {
    type Error = TypeMismatch;

    fn try_from(value: AttributeValue) -> (r: Result<Self, TypeMismatch>) {
        match value {
            AttributeValue::IoHandle(v) => Ok(v),
            other => {
                Err(TypeMismatch { expected: "IoHandleRef", actual: other.kind_name() })
            },
        }
    }
}

impl TryFromSpecImpl<AttributeValue> for IoHandleRef {
    open spec fn obeys_try_from_spec() -> bool {
        true
    }

    open spec fn try_from_spec(value: AttributeValue) -> Result<Self, TypeMismatch> {
        match value {
            AttributeValue::IoHandle(v) => Ok(v),
            other => Err(mismatch("IoHandleRef", other.spec_kind_name())),
        }
    }
}

impl TryFrom<AttributeValue> for LocationGroupRef {
    type Error = TypeMismatch;

    fn try_from(value: AttributeValue) -> (r: Result<Self, TypeMismatch>) {
        match value {
            AttributeValue::LocationGroup(v) => Ok(v),
            other => {
                Err(TypeMismatch { expected: "LocationGroupRef", actual: other.kind_name() })
            },
        }
    }
}

impl TryFromSpecImpl<AttributeValue> for LocationGroupRef {
    open spec fn obeys_try_from_spec() -> bool {
        true
    }

    open spec fn try_from_spec(value: AttributeValue) -> Result<Self, TypeMismatch> {
        match value {
            AttributeValue::LocationGroup(v) => Ok(v),
            other => Err(mismatch("LocationGroupRef", other.spec_kind_name())),
        }
    }
}

/// That `T` is the type of the payload under the tag `kind`, with the name
/// `name`: a value that `wrap` made from a `T` gives it back when asked for
/// a `T`, and a value under any other tag gives the mismatch that names `T`
/// and the type held.
pub open spec fn unwraps<T: TryFrom<AttributeValue, Error = TypeMismatch>>(
    kind: TypeEnum,
    name: &'static str,
    wrap: spec_fn(T) -> AttributeValue,
) -> bool {
    &&& forall|v: T| #[trigger]
        <T as TryFromSpec<AttributeValue>>::try_from_spec(wrap(v)) == Ok::<T, TypeMismatch>(v)
    &&& forall|value: AttributeValue|
        value.spec_kind() != kind ==> #[trigger] <T as TryFromSpec<
            AttributeValue,
        >>::try_from_spec(value) == Err::<T, TypeMismatch>(
            mismatch(name, value.spec_kind_name()),
        )
}

/// Unwrapping inverts wrapping: asked for the type it holds, a value gives
/// its payload back; asked for any other type, it gives a `TypeMismatch`
/// that names the type asked for and the type held.
pub proof fn lemma_unwrap_round_trip()
    ensures
        unwraps::<u8>(TypeEnum::Uint8, "u8", |v: u8| AttributeValue::Uint8(v)),
        unwraps::<u16>(TypeEnum::Uint16, "u16", |v: u16| AttributeValue::Uint16(v)),
        unwraps::<u32>(TypeEnum::Uint32, "u32", |v: u32| AttributeValue::Uint32(v)),
        unwraps::<u64>(TypeEnum::Uint64, "u64", |v: u64| AttributeValue::Uint64(v)),
        unwraps::<i8>(TypeEnum::Int8, "i8", |v: i8| AttributeValue::Int8(v)),
        unwraps::<i16>(TypeEnum::Int16, "i16", |v: i16| AttributeValue::Int16(v)),
        unwraps::<i32>(TypeEnum::Int32, "i32", |v: i32| AttributeValue::Int32(v)),
        unwraps::<i64>(TypeEnum::Int64, "i64", |v: i64| AttributeValue::Int64(v)),
        unwraps::<Float32Bits>(TypeEnum::Float, "f32", |v: Float32Bits| AttributeValue::Float32(v)),
        unwraps::<Float64Bits>(
            TypeEnum::Double,
            "f64",
            |v: Float64Bits| AttributeValue::Float64(v),
        ),
        unwraps::<StringRef>(
            TypeEnum::String,
            "StringRef",
            |v: StringRef| AttributeValue::String(v),
        ),
        unwraps::<AttributeRef>(
            TypeEnum::Attribute,
            "AttributeRef",
            |v: AttributeRef| AttributeValue::Attribute(v),
        ),
        unwraps::<LocationRef>(
            TypeEnum::Location,
            "LocationRef",
            |v: LocationRef| AttributeValue::Location(v),
        ),
        unwraps::<RegionRef>(
            TypeEnum::Region,
            "RegionRef",
            |v: RegionRef| AttributeValue::Region(v),
        ),
        unwraps::<GroupRef>(TypeEnum::Group, "GroupRef", |v: GroupRef| AttributeValue::Group(v)),
        unwraps::<MetricRef>(
            TypeEnum::Metric,
            "MetricRef",
            |v: MetricRef| AttributeValue::Metric(v),
        ),
        unwraps::<CommRef>(TypeEnum::Comm, "CommRef", |v: CommRef| AttributeValue::Comm(v)),
        unwraps::<ParameterRef>(
            TypeEnum::Parameter,
            "ParameterRef",
            |v: ParameterRef| AttributeValue::Parameter(v),
        ),
        unwraps::<RmaWinRef>(
            TypeEnum::RmaWin,
            "RmaWinRef",
            |v: RmaWinRef| AttributeValue::RmaWin(v),
        ),
        unwraps::<SourceCodeLocationRef>(
            TypeEnum::SourceCodeLocation,
            "SourceCodeLocationRef",
            |v: SourceCodeLocationRef| AttributeValue::SourceCodeLocation(v),
        ),
        unwraps::<CallingContextRef>(
            TypeEnum::CallingContext,
            "CallingContextRef",
            |v: CallingContextRef| AttributeValue::CallingContext(v),
        ),
        unwraps::<InterruptGeneratorRef>(
            TypeEnum::InterruptGenerator,
            "InterruptGeneratorRef",
            |v: InterruptGeneratorRef| AttributeValue::InterruptGenerator(v),
        ),
        unwraps::<IoFileRef>(
            TypeEnum::IoFile,
            "IoFileRef",
            |v: IoFileRef| AttributeValue::IoFile(v),
        ),
        unwraps::<IoHandleRef>(
            TypeEnum::IoHandle,
            "IoHandleRef",
            |v: IoHandleRef| AttributeValue::IoHandle(v),
        ),
        unwraps::<LocationGroupRef>(
            TypeEnum::LocationGroup,
            "LocationGroupRef",
            |v: LocationGroupRef| AttributeValue::LocationGroup(v),
        ),
{
}

/// What one lookup in a native attribute list returned: the status of the
/// lookup and, where it succeeded, the attribute found with its tagged raw
/// value.
#[derive(Clone, Copy, Debug, PartialEq, Eq, Structural)]
pub struct AttributeLookup {
    pub status: ErrorCode,
    pub attribute: AttributeRef,
    pub kind: Type,
    pub value: RawValue,
}

/// What a lookup becomes for the reader of the list: the attribute with its
/// decoded value, or the status that the lookup failed with.
pub open spec fn lookup_result(lookup: AttributeLookup) -> Result<
    (AttributeRef, AttributeValue),
    StatusCode,
> {
    if lookup.status.is_success() {
        Ok((lookup.attribute, decode(lookup.kind, lookup.value)))
    } else {
        Err(StatusCode::spec_from_raw(lookup.status))
    }
}

/// The index that a walk at `position` over a list of `len` entries asks
/// for next, if it asks for any.
pub open spec fn asked_index(position: u32, len: u32) -> Option<u32> {
    if position < len {
        Some(position)
    } else {
        None
    }
}

/// Where a walk at `position` over a list of `len` entries stands once the
/// index it asked for was looked up: at the following index after a
/// success, at the end of the list after a failure. A walk at its end stays
/// there.
pub open spec fn position_after(position: u32, len: u32, lookup: AttributeLookup) -> u32 {
    if position >= len {
        position
    } else if lookup.status.is_success() {
        (position + 1) as u32
    } else {
        len
    }
}

/// What a walk at `position` over a list of `len` entries yields for the
/// lookup of the index it asked for: nothing at the end of the list, else
/// what the lookup becomes.
pub open spec fn yielded(position: u32, len: u32, lookup: AttributeLookup) -> Option<
    Result<(AttributeRef, AttributeValue), StatusCode>,
> {
    if position < len {
        Some(lookup_result(lookup))
    } else {
        None
    }
}

/// Where a walk from `position` stands after the lookups in `lookups`, each
/// made for the index that the walk asked for.
pub open spec fn position_after_all(position: u32, len: u32, lookups: Seq<AttributeLookup>) -> u32
    decreases lookups.len(),
{
    if lookups.len() == 0 {
        position
    } else {
        position_after_all(position_after(position, len, lookups[0]), len, lookups.drop_first())
    }
}

/// The first failure ends a walk: after a lookup that failed, no index is
/// asked for, whatever is looked up afterwards.
pub proof fn lemma_failure_ends_the_walk(
    position: u32,
    len: u32,
    failed: AttributeLookup,
    later: Seq<AttributeLookup>,
)
    requires
        !failed.status.is_success(),
    ensures
        asked_index(position_after_all(position, len, seq![failed] + later), len) is None,
{
    let all = seq![failed] + later;
    assert(all[0] == failed);
    assert(all.drop_first() =~= later);
    lemma_a_walk_at_its_end_stays(position_after(position, len, failed), len, later);
}

/// A walk that asks for no index asks for none again.
pub proof fn lemma_a_walk_at_its_end_stays(position: u32, len: u32, lookups: Seq<AttributeLookup>)
    requires
        position >= len,
    ensures
        position_after_all(position, len, lookups) == position,
    decreases lookups.len(),
{
    if lookups.len() > 0 {
        lemma_a_walk_at_its_end_stays(position, len, lookups.drop_first());
    }
}

/// A walk without a failure asks for every index once, in rising order:
/// after `lookups.len()` successes from the start it stands at that index.
pub proof fn lemma_successes_walk_in_order(position: u32, len: u32, lookups: Seq<AttributeLookup>)
    requires
        position + lookups.len() <= len,
        forall|i: int| 0 <= i < lookups.len() ==> (#[trigger] lookups[i]).status.is_success(),
    ensures
        position_after_all(position, len, lookups) == position + lookups.len(),
    decreases lookups.len(),
{
    if lookups.len() > 0 {
        let rest = lookups.drop_first();
        assert forall|i: int| 0 <= i < rest.len() implies (#[trigger] rest[i]).status.is_success()
        by {
            assert(rest[i] == lookups[i + 1]);
        }
        lemma_successes_walk_in_order((position + 1) as u32, len, rest);
    }
}

/// A single pass over a native attribute list of known length. The walk
/// says which index is to be looked up next; the one who holds the list
/// looks it up and hands back what the native accessor returned, and the
/// walk decodes it on its way out.
#[derive(Debug)]
pub struct AttributeIterator {
    index: u32,
    length: u32,
}

impl AttributeIterator {
    #[verifier::type_invariant]
    closed spec fn in_bounds(self) -> bool {
        self.index <= self.length
    }

    /// The index of the entry that comes next.
    pub closed spec fn position(self) -> u32 {
        self.index
    }

    /// The number of entries in the list.
    pub closed spec fn len(self) -> u32 {
        self.length
    }

    /// A walk at the start of a list of `length` entries.
    pub fn new(length: u32) -> (it: Self)
        ensures
            it.position() == 0,
            it.len() == length,
    {
        Self { index: 0, length }
    }

    /// The index to look up next: none once every index below the length
    /// was looked up, and none after a lookup that failed.
    pub fn next_index(&self) -> (r: Option<u32>)
        ensures
            r == asked_index(self.position(), self.len()),
            self.position() <= self.len(),
    {
        proof {
            use_type_invariant(self);
        }
        if self.index < self.length {
            Some(self.index)
        } else {
            None
        }
    }

    /// What the lookup of one entry becomes: the attribute with its decoded
    /// value, or the status that the lookup failed with.
    pub fn get_attribute_by_index(lookup: AttributeLookup) -> (r: Result<
        (AttributeRef, AttributeValue),
        StatusCode,
    >)
        ensures
            r == lookup_result(lookup),
    {
        if lookup.status.0 == OTF2_SUCCESS {
            Ok((lookup.attribute, AttributeValue::new(lookup.kind, lookup.value)))
        } else {
            Err(StatusCode::from_raw(lookup.status))
        }
    }

    /// The next entry, given what looking up the index asked for returned:
    /// `None` at the end of the list, else what the lookup becomes. A
    /// success passes the index; a failure ends the walk.
    pub fn next(&mut self, lookup: AttributeLookup) -> (r: Option<
        Result<(AttributeRef, AttributeValue), StatusCode>,
    >)
        ensures
            final(self).len() == old(self).len(),
            final(self).position() == position_after(old(self).position(), old(self).len(), lookup),
            r == yielded(old(self).position(), old(self).len(), lookup),
    {
        proof {
            use_type_invariant(&*self);
        }
        if self.index >= self.length {
            None
        } else {
            let outcome = Self::get_attribute_by_index(lookup);
            if outcome.is_ok() {
                self.index = self.index + 1;
            } else {
                self.index = self.length;
            }
            Some(outcome)
        }
    }
}

/// The values that a row of tags and a row of payloads decode to, pair by
/// pair, as far as both rows reach.
pub open spec fn decoded_values(types: Seq<Type>, values: Seq<RawValue>) -> Seq<AttributeValue> {
    Seq::new(
        if types.len() <= values.len() {
            types.len()
        } else {
            values.len()
        },
        |i: int| decode(types[i], values[i]),
    )
}

/// Decodes a row of payloads by the row of their tags, pair by pair, as far
/// as both rows reach.
pub fn decode_values(types: &Vec<Type>, values: &Vec<RawValue>) -> (decoded: Vec<AttributeValue>)
    ensures
        decoded@ == decoded_values(types@, values@),
{
    let n = if types.len() <= values.len() {
        types.len()
    } else {
        values.len()
    };
    let mut decoded: Vec<AttributeValue> = Vec::new();
    let mut i: usize = 0;
    while i < n
        invariant
            i <= n,
            n <= types.len(),
            n <= values.len(),
            decoded.len() == i,
            forall|k: int| 0 <= k < i ==> decoded[k] == decode(types[k], values[k]),
        decreases n - i,
    {
        decoded.push(AttributeValue::new(types[i], values[i]));
        i += 1;
    }
    proof {
        assert(decoded@ =~= decoded_values(types@, values@));
    }
    decoded
}

} // verus!
