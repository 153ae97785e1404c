//! The scalar vocabulary of the native engine: status and callback codes,
//! reference ids, the type tag of an attribute and its raw payload.
use vstd::prelude::*;
use vstd::std_specs::convert::FromSpecImpl;

verus! {

/// The number of the status of an operation that succeeded.
pub const OTF2_SUCCESS: i32 = 0;

/// The number of the status of an operation refused for want of access rights.
pub const OTF2_ERROR_EACCES: i32 = 3;

/// The id that stands for "no such record" among 8-bit ids.
pub const OTF2_UNDEFINED_UINT8: u8 = 0xff;

/// The id that stands for "no such record" among 32-bit ids.
pub const OTF2_UNDEFINED_UINT32: u32 = 0xffff_ffff;

/// The id that stands for "no such record" among 64-bit ids.
pub const OTF2_UNDEFINED_UINT64: u64 = 0xffff_ffff_ffff_ffff;

/// A status code of the native engine. `OTF2_SUCCESS` is the one success
/// value; every other number names a failure.
#[derive(Clone, Copy, Debug, PartialEq, Eq, Structural, Hash)]
pub struct ErrorCode(pub i32);

impl ErrorCode {
    /// Whether this is the success sentinel.
    pub open spec fn is_success(self) -> bool {
        self.0 == OTF2_SUCCESS
    }
}

/// What a callback tells the native read loop.
#[derive(Clone, Copy, Debug, PartialEq, Eq, Structural, Hash)]
pub enum CallbackCode {
    /// Go on with the next record.
    Success,
    /// Stop reading; the read call reports an interruption.
    Interrupt,
    /// Stop reading; the read call reports an error.
    Error,
}

/// A point in time, in ticks of the trace's clock.
pub type TimeStamp = u64;

/// Whether measurement was switched on or off.
pub type MeasurementMode = u8;

/// The kind of a collective operation.
pub type CollectiveOp = u8;

/// The level of an RMA synchronisation.
pub type RmaSyncLevel = u32;

/// Whether a lock is exclusive or shared.
pub type LockType = u8;

/// The kind of an RMA synchronisation.
pub type RmaSyncType = u8;

/// The kind of an atomic RMA operation.
pub type RmaAtomicType = u8;

/// A parallel programming paradigm.
pub type Paradigm = u8;

/// The class of a paradigm.
pub type ParadigmClass = u8;

/// A property of a paradigm.
pub type ParadigmProperty = u8;

/// The class of an I/O paradigm.
pub type IoParadigmClass = u8;

/// Flags of an I/O paradigm.
pub type IoParadigmFlag = u32;

/// A property of an I/O paradigm.
pub type IoParadigmProperty = u8;

/// How an I/O handle may be accessed.
pub type IoAccessMode = u8;

/// Flags given when an I/O handle was created.
pub type IoCreationFlag = u32;

/// Status flags of an I/O handle.
pub type IoStatusFlag = u32;

/// From where a seek is measured.
pub type IoSeekOption = u8;

/// The direction of an I/O operation.
pub type IoOperationMode = u8;

/// Flags of an I/O operation.
pub type IoOperationFlag = u32;

/// Flags of an I/O handle definition.
pub type IoHandleFlag = u32;

/// The domain of a system tree node.
pub type SystemTreeDomain = u8;

/// The kind of a location.
pub type LocationType = u8;

/// The kind of a location group.
pub type LocationGroupType = u8;

/// The role of a region.
pub type RegionRole = u8;

/// Flags of a region.
pub type RegionFlag = u32;

/// The kind of a group.
pub type GroupType = u8;

/// Flags of a group.
pub type GroupFlag = u32;

/// The kind of a metric.
pub type MetricType = u8;

/// How the values of a metric are to be read.
pub type MetricMode = u8;

/// The base of a metric's exponent.
pub type Base = u8;

/// When a metric is recorded.
pub type MetricOccurrence = u8;

/// What records a metric.
pub type RecorderKind = u8;

/// What a metric instance measures.
pub type MetricScope = u8;

/// Flags of a communicator.
pub type CommFlag = u32;

/// The kind of a parameter.
pub type ParameterType = u8;

/// Flags of an RMA window.
pub type RmaWinFlag = u32;

/// Whether a cartesian dimension is periodic.
pub type CartPeriodicity = u8;

/// The mode of an interrupt generator.
pub type InterruptGeneratorMode = u8;

/// The id of an I/O paradigm definition.
#[derive(Clone, Copy, Debug, PartialEq, Eq, Structural, Hash)]
pub struct IoParadigmRef(pub u8);

/// The id of a string definition.
#[derive(Clone, Copy, Debug, PartialEq, Eq, Structural, Hash)]
pub struct StringRef(pub u32);

/// The id of an attribute definition.
#[derive(Clone, Copy, Debug, PartialEq, Eq, Structural, Hash)]
pub struct AttributeRef(pub u32);

/// The id of a system tree node definition.
#[derive(Clone, Copy, Debug, PartialEq, Eq, Structural, Hash)]
pub struct SystemTreeNodeRef(pub u32);

impl SystemTreeNodeRef {
    /// The id as an optional reference: `None` for the undefined id.
    pub open spec fn spec_defined(self) -> Option<SystemTreeNodeRef> {
        if self.0 == OTF2_UNDEFINED_UINT32 {
            None
        } else {
            Some(self)
        }
    }

    /// The id as an optional reference: `None` for the undefined id.
    pub fn defined(self) -> (r: Option<SystemTreeNodeRef>)
        ensures
            r == self.spec_defined(),
    {
        if self.0 == OTF2_UNDEFINED_UINT32 {
            None
        } else {
            Some(self)
        }
    }
}

/// The id of a location group definition.
#[derive(Clone, Copy, Debug, PartialEq, Eq, Structural, Hash)]
pub struct LocationGroupRef(pub u32);

impl LocationGroupRef {
    /// The id as an optional reference: `None` for the undefined id.
    pub open spec fn spec_defined(self) -> Option<LocationGroupRef> {
        if self.0 == OTF2_UNDEFINED_UINT32 {
            None
        } else {
            Some(self)
        }
    }

    /// The id as an optional reference: `None` for the undefined id.
    pub fn defined(self) -> (r: Option<LocationGroupRef>)
        ensures
            r == self.spec_defined(),
    {
        if self.0 == OTF2_UNDEFINED_UINT32 {
            None
        } else {
            Some(self)
        }
    }
}

/// The id of a location definition.
#[derive(Clone, Copy, Debug, PartialEq, Eq, Structural, Hash)]
pub struct LocationRef(pub u64);

/// The id of a region definition.
#[derive(Clone, Copy, Debug, PartialEq, Eq, Structural, Hash)]
pub struct RegionRef(pub u32);

/// The id of a call site definition.
#[derive(Clone, Copy, Debug, PartialEq, Eq, Structural, Hash)]
pub struct CallsiteRef(pub u32);

/// The id of a call path definition.
#[derive(Clone, Copy, Debug, PartialEq, Eq, Structural, Hash)]
pub struct CallpathRef(pub u32);

impl CallpathRef {
    /// The id as an optional reference: `None` for the undefined id.
    pub open spec fn spec_defined(self) -> Option<CallpathRef> {
        if self.0 == OTF2_UNDEFINED_UINT32 {
            None
        } else {
            Some(self)
        }
    }

    /// The id as an optional reference: `None` for the undefined id.
    pub fn defined(self) -> (r: Option<CallpathRef>)
        ensures
            r == self.spec_defined(),
    {
        if self.0 == OTF2_UNDEFINED_UINT32 {
            None
        } else {
            Some(self)
        }
    }
}

/// The id of a group definition.
#[derive(Clone, Copy, Debug, PartialEq, Eq, Structural, Hash)]
pub struct GroupRef(pub u32);

/// The id of a metric member definition.
#[derive(Clone, Copy, Debug, PartialEq, Eq, Structural, Hash)]
pub struct MetricMemberRef(pub u32);

/// The id of a metric class or instance definition.
#[derive(Clone, Copy, Debug, PartialEq, Eq, Structural, Hash)]
pub struct MetricRef(pub u32);

/// The id of a communicator definition.
#[derive(Clone, Copy, Debug, PartialEq, Eq, Structural, Hash)]
pub struct CommRef(pub u32);

impl CommRef {
    /// The id as an optional reference: `None` for the undefined id.
    pub open spec fn spec_defined(self) -> Option<CommRef> {
        if self.0 == OTF2_UNDEFINED_UINT32 {
            None
        } else {
            Some(self)
        }
    }

    /// The id as an optional reference: `None` for the undefined id.
    pub fn defined(self) -> (r: Option<CommRef>)
        ensures
            r == self.spec_defined(),
    {
        if self.0 == OTF2_UNDEFINED_UINT32 {
            None
        } else {
            Some(self)
        }
    }
}

/// The id of a parameter definition.
#[derive(Clone, Copy, Debug, PartialEq, Eq, Structural, Hash)]
pub struct ParameterRef(pub u32);

/// The id of an RMA window definition.
#[derive(Clone, Copy, Debug, PartialEq, Eq, Structural, Hash)]
pub struct RmaWinRef(pub u32);

/// The id of a cartesian dimension definition.
#[derive(Clone, Copy, Debug, PartialEq, Eq, Structural, Hash)]
pub struct CartDimensionRef(pub u32);

/// The id of a cartesian topology definition.
#[derive(Clone, Copy, Debug, PartialEq, Eq, Structural, Hash)]
pub struct CartTopologyRef(pub u32);

/// The id of a source code location definition.
#[derive(Clone, Copy, Debug, PartialEq, Eq, Structural, Hash)]
pub struct SourceCodeLocationRef(pub u32);

/// The id of a calling context definition.
#[derive(Clone, Copy, Debug, PartialEq, Eq, Structural, Hash)]
pub struct CallingContextRef(pub u32);

impl CallingContextRef {
    /// The id as an optional reference: `None` for the undefined id.
    pub open spec fn spec_defined(self) -> Option<CallingContextRef> {
        if self.0 == OTF2_UNDEFINED_UINT32 {
            None
        } else {
            Some(self)
        }
    }

    /// The id as an optional reference: `None` for the undefined id.
    pub fn defined(self) -> (r: Option<CallingContextRef>)
        ensures
            r == self.spec_defined(),
    {
        if self.0 == OTF2_UNDEFINED_UINT32 {
            None
        } else {
            Some(self)
        }
    }
}

/// The id of an interrupt generator definition.
#[derive(Clone, Copy, Debug, PartialEq, Eq, Structural, Hash)]
pub struct InterruptGeneratorRef(pub u32);

/// The id of an I/O file definition.
#[derive(Clone, Copy, Debug, PartialEq, Eq, Structural, Hash)]
pub struct IoFileRef(pub u32);

/// The id of an I/O handle definition.
#[derive(Clone, Copy, Debug, PartialEq, Eq, Structural, Hash)]
pub struct IoHandleRef(pub u32);

impl IoHandleRef {
    /// The id as an optional reference: `None` for the undefined id.
    pub open spec fn spec_defined(self) -> Option<IoHandleRef> {
        if self.0 == OTF2_UNDEFINED_UINT32 {
            None
        } else {
            Some(self)
        }
    }

    /// The id as an optional reference: `None` for the undefined id.
    pub fn defined(self) -> (r: Option<IoHandleRef>)
        ensures
            r == self.spec_defined(),
    {
        if self.0 == OTF2_UNDEFINED_UINT32 {
            None
        } else {
            Some(self)
        }
    }
}

/// The number of the type tag `Empty`.
pub const OTF2_TYPE_NONE: u8 = 0;

/// The number of the type tag `Uint8`.
pub const OTF2_TYPE_UINT8: u8 = 1;

/// The number of the type tag `Uint16`.
pub const OTF2_TYPE_UINT16: u8 = 2;

/// The number of the type tag `Uint32`.
pub const OTF2_TYPE_UINT32: u8 = 3;

/// The number of the type tag `Uint64`.
pub const OTF2_TYPE_UINT64: u8 = 4;

/// The number of the type tag `Int8`.
pub const OTF2_TYPE_INT8: u8 = 5;

/// The number of the type tag `Int16`.
pub const OTF2_TYPE_INT16: u8 = 6;

/// The number of the type tag `Int32`.
pub const OTF2_TYPE_INT32: u8 = 7;

/// The number of the type tag `Int64`.
pub const OTF2_TYPE_INT64: u8 = 8;

/// The number of the type tag `Float`.
pub const OTF2_TYPE_FLOAT: u8 = 9;

/// The number of the type tag `Double`.
pub const OTF2_TYPE_DOUBLE: u8 = 10;

/// The number of the type tag `String`.
pub const OTF2_TYPE_STRING: u8 = 11;

/// The number of the type tag `Attribute`.
pub const OTF2_TYPE_ATTRIBUTE: u8 = 12;

/// The number of the type tag `Location`.
pub const OTF2_TYPE_LOCATION: u8 = 13;

/// The number of the type tag `Region`.
pub const OTF2_TYPE_REGION: u8 = 14;

/// The number of the type tag `Group`.
pub const OTF2_TYPE_GROUP: u8 = 15;

/// The number of the type tag `Metric`.
pub const OTF2_TYPE_METRIC: u8 = 16;

/// The number of the type tag `Comm`.
pub const OTF2_TYPE_COMM: u8 = 17;

/// The number of the type tag `Parameter`.
pub const OTF2_TYPE_PARAMETER: u8 = 18;

/// The number of the type tag `RmaWin`.
pub const OTF2_TYPE_RMA_WIN: u8 = 19;

/// The number of the type tag `SourceCodeLocation`.
pub const OTF2_TYPE_SOURCE_CODE_LOCATION: u8 = 20;

/// The number of the type tag `CallingContext`.
pub const OTF2_TYPE_CALLING_CONTEXT: u8 = 21;

/// The number of the type tag `InterruptGenerator`.
pub const OTF2_TYPE_INTERRUPT_GENERATOR: u8 = 22;

/// The number of the type tag `IoFile`.
pub const OTF2_TYPE_IO_FILE: u8 = 23;

/// The number of the type tag `IoHandle`.
pub const OTF2_TYPE_IO_HANDLE: u8 = 24;

/// The number of the type tag `LocationGroup`.
pub const OTF2_TYPE_LOCATION_GROUP: u8 = 25;

/// The type tag that travels with a raw attribute payload.
#[derive(Clone, Copy, Debug, PartialEq, Eq, Structural, Hash)]
pub struct Type(pub u8);

/// The type tags the engine knows. Every number without a name of its own
/// reads as `Empty`.
#[derive(Clone, Copy, Debug, PartialEq, Eq, Structural, Hash)]
pub enum TypeEnum {
    Empty,
    Uint8,
    Uint16,
    Uint32,
    Uint64,
    Int8,
    Int16,
    Int32,
    Int64,
    Float,
    Double,
    String,
    Attribute,
    Location,
    Region,
    Group,
    Metric,
    Comm,
    Parameter,
    RmaWin,
    SourceCodeLocation,
    CallingContext,
    InterruptGenerator,
    IoFile,
    IoHandle,
    LocationGroup,
}

impl Type {
    /// The named tag of this number.
    pub open spec fn spec_to_enum(self) -> TypeEnum {
        if self.0 == OTF2_TYPE_UINT8 {
            TypeEnum::Uint8
        } else if self.0 == OTF2_TYPE_UINT16 {
            TypeEnum::Uint16
        } else if self.0 == OTF2_TYPE_UINT32 {
            TypeEnum::Uint32
        } else if self.0 == OTF2_TYPE_UINT64 {
            TypeEnum::Uint64
        } else if self.0 == OTF2_TYPE_INT8 {
            TypeEnum::Int8
        } else if self.0 == OTF2_TYPE_INT16 {
            TypeEnum::Int16
        } else if self.0 == OTF2_TYPE_INT32 {
            TypeEnum::Int32
        } else if self.0 == OTF2_TYPE_INT64 {
            TypeEnum::Int64
        } else if self.0 == OTF2_TYPE_FLOAT {
            TypeEnum::Float
        } else if self.0 == OTF2_TYPE_DOUBLE {
            TypeEnum::Double
        } else if self.0 == OTF2_TYPE_STRING {
            TypeEnum::String
        } else if self.0 == OTF2_TYPE_ATTRIBUTE {
            TypeEnum::Attribute
        } else if self.0 == OTF2_TYPE_LOCATION {
            TypeEnum::Location
        } else if self.0 == OTF2_TYPE_REGION {
            TypeEnum::Region
        } else if self.0 == OTF2_TYPE_GROUP {
            TypeEnum::Group
        } else if self.0 == OTF2_TYPE_METRIC {
            TypeEnum::Metric
        } else if self.0 == OTF2_TYPE_COMM {
            TypeEnum::Comm
        } else if self.0 == OTF2_TYPE_PARAMETER {
            TypeEnum::Parameter
        } else if self.0 == OTF2_TYPE_RMA_WIN {
            TypeEnum::RmaWin
        } else if self.0 == OTF2_TYPE_SOURCE_CODE_LOCATION {
            TypeEnum::SourceCodeLocation
        } else if self.0 == OTF2_TYPE_CALLING_CONTEXT {
            TypeEnum::CallingContext
        } else if self.0 == OTF2_TYPE_INTERRUPT_GENERATOR {
            TypeEnum::InterruptGenerator
        } else if self.0 == OTF2_TYPE_IO_FILE {
            TypeEnum::IoFile
        } else if self.0 == OTF2_TYPE_IO_HANDLE {
            TypeEnum::IoHandle
        } else if self.0 == OTF2_TYPE_LOCATION_GROUP {
            TypeEnum::LocationGroup
        } else {
            TypeEnum::Empty
        }
    }

    /// The named tag of this number; a number that names no type is `Empty`.
    pub fn to_enum(self) -> (tag: TypeEnum)
        ensures
            tag == self.spec_to_enum(),
    {
        if self.0 == OTF2_TYPE_UINT8 {
            TypeEnum::Uint8
        } else if self.0 == OTF2_TYPE_UINT16 {
            TypeEnum::Uint16
        } else if self.0 == OTF2_TYPE_UINT32 {
            TypeEnum::Uint32
        } else if self.0 == OTF2_TYPE_UINT64 {
            TypeEnum::Uint64
        } else if self.0 == OTF2_TYPE_INT8 {
            TypeEnum::Int8
        } else if self.0 == OTF2_TYPE_INT16 {
            TypeEnum::Int16
        } else if self.0 == OTF2_TYPE_INT32 {
            TypeEnum::Int32
        } else if self.0 == OTF2_TYPE_INT64 {
            TypeEnum::Int64
        } else if self.0 == OTF2_TYPE_FLOAT {
            TypeEnum::Float
        } else if self.0 == OTF2_TYPE_DOUBLE {
            TypeEnum::Double
        } else if self.0 == OTF2_TYPE_STRING {
            TypeEnum::String
        } else if self.0 == OTF2_TYPE_ATTRIBUTE {
            TypeEnum::Attribute
        } else if self.0 == OTF2_TYPE_LOCATION {
            TypeEnum::Location
        } else if self.0 == OTF2_TYPE_REGION {
            TypeEnum::Region
        } else if self.0 == OTF2_TYPE_GROUP {
            TypeEnum::Group
        } else if self.0 == OTF2_TYPE_METRIC {
            TypeEnum::Metric
        } else if self.0 == OTF2_TYPE_COMM {
            TypeEnum::Comm
        } else if self.0 == OTF2_TYPE_PARAMETER {
            TypeEnum::Parameter
        } else if self.0 == OTF2_TYPE_RMA_WIN {
            TypeEnum::RmaWin
        } else if self.0 == OTF2_TYPE_SOURCE_CODE_LOCATION {
            TypeEnum::SourceCodeLocation
        } else if self.0 == OTF2_TYPE_CALLING_CONTEXT {
            TypeEnum::CallingContext
        } else if self.0 == OTF2_TYPE_INTERRUPT_GENERATOR {
            TypeEnum::InterruptGenerator
        } else if self.0 == OTF2_TYPE_IO_FILE {
            TypeEnum::IoFile
        } else if self.0 == OTF2_TYPE_IO_HANDLE {
            TypeEnum::IoHandle
        } else if self.0 == OTF2_TYPE_LOCATION_GROUP {
            TypeEnum::LocationGroup
        } else {
            TypeEnum::Empty
        }
    }
}

impl From<Type> for TypeEnum {
    fn from(value: Type) -> (tag: Self) {
        value.to_enum()
    }
}

impl FromSpecImpl<Type> for TypeEnum {
    open spec fn obeys_from_spec() -> bool {
        true
    }

    open spec fn from_spec(value: Type) -> Self {
        value.spec_to_enum()
    }
}

impl TypeEnum {
    /// The number of this tag.
    pub open spec fn spec_number(self) -> u8 {
        match self {
            TypeEnum::Empty => OTF2_TYPE_NONE,
            TypeEnum::Uint8 => OTF2_TYPE_UINT8,
            TypeEnum::Uint16 => OTF2_TYPE_UINT16,
            TypeEnum::Uint32 => OTF2_TYPE_UINT32,
            TypeEnum::Uint64 => OTF2_TYPE_UINT64,
            TypeEnum::Int8 => OTF2_TYPE_INT8,
            TypeEnum::Int16 => OTF2_TYPE_INT16,
            TypeEnum::Int32 => OTF2_TYPE_INT32,
            TypeEnum::Int64 => OTF2_TYPE_INT64,
            TypeEnum::Float => OTF2_TYPE_FLOAT,
            TypeEnum::Double => OTF2_TYPE_DOUBLE,
            TypeEnum::String => OTF2_TYPE_STRING,
            TypeEnum::Attribute => OTF2_TYPE_ATTRIBUTE,
            TypeEnum::Location => OTF2_TYPE_LOCATION,
            TypeEnum::Region => OTF2_TYPE_REGION,
            TypeEnum::Group => OTF2_TYPE_GROUP,
            TypeEnum::Metric => OTF2_TYPE_METRIC,
            TypeEnum::Comm => OTF2_TYPE_COMM,
            TypeEnum::Parameter => OTF2_TYPE_PARAMETER,
            TypeEnum::RmaWin => OTF2_TYPE_RMA_WIN,
            TypeEnum::SourceCodeLocation => OTF2_TYPE_SOURCE_CODE_LOCATION,
            TypeEnum::CallingContext => OTF2_TYPE_CALLING_CONTEXT,
            TypeEnum::InterruptGenerator => OTF2_TYPE_INTERRUPT_GENERATOR,
            TypeEnum::IoFile => OTF2_TYPE_IO_FILE,
            TypeEnum::IoHandle => OTF2_TYPE_IO_HANDLE,
            TypeEnum::LocationGroup => OTF2_TYPE_LOCATION_GROUP,
        }
    }

    /// The number of this tag.
    pub fn number(self) -> (n: u8)
        ensures
            n == self.spec_number(),
    {
        match self {
            TypeEnum::Empty => OTF2_TYPE_NONE,
            TypeEnum::Uint8 => OTF2_TYPE_UINT8,
            TypeEnum::Uint16 => OTF2_TYPE_UINT16,
            TypeEnum::Uint32 => OTF2_TYPE_UINT32,
            TypeEnum::Uint64 => OTF2_TYPE_UINT64,
            TypeEnum::Int8 => OTF2_TYPE_INT8,
            TypeEnum::Int16 => OTF2_TYPE_INT16,
            TypeEnum::Int32 => OTF2_TYPE_INT32,
            TypeEnum::Int64 => OTF2_TYPE_INT64,
            TypeEnum::Float => OTF2_TYPE_FLOAT,
            TypeEnum::Double => OTF2_TYPE_DOUBLE,
            TypeEnum::String => OTF2_TYPE_STRING,
            TypeEnum::Attribute => OTF2_TYPE_ATTRIBUTE,
            TypeEnum::Location => OTF2_TYPE_LOCATION,
            TypeEnum::Region => OTF2_TYPE_REGION,
            TypeEnum::Group => OTF2_TYPE_GROUP,
            TypeEnum::Metric => OTF2_TYPE_METRIC,
            TypeEnum::Comm => OTF2_TYPE_COMM,
            TypeEnum::Parameter => OTF2_TYPE_PARAMETER,
            TypeEnum::RmaWin => OTF2_TYPE_RMA_WIN,
            TypeEnum::SourceCodeLocation => OTF2_TYPE_SOURCE_CODE_LOCATION,
            TypeEnum::CallingContext => OTF2_TYPE_CALLING_CONTEXT,
            TypeEnum::InterruptGenerator => OTF2_TYPE_INTERRUPT_GENERATOR,
            TypeEnum::IoFile => OTF2_TYPE_IO_FILE,
            TypeEnum::IoHandle => OTF2_TYPE_IO_HANDLE,
            TypeEnum::LocationGroup => OTF2_TYPE_LOCATION_GROUP,
        }
    }
}

/// The raw payload of an attribute: the eight bytes of the engine's value
/// union, as the number they form when its narrower fields occupy the
/// low-order bytes. Which field is valid is told by a `Type` beside it.
#[derive(Clone, Copy, Debug, PartialEq, Eq, Structural, Hash)]
pub struct RawValue(pub u64);

/// The raw value of one metric sample, read by the `Type` beside it.
#[derive(Clone, Copy, Debug, PartialEq, Eq, Structural, Hash)]
pub struct MetricValue(pub u64);

/// The low bits of `raw`, below `modulus`, read as an unsigned number.
pub open spec fn low_unsigned(raw: u64, modulus: int) -> int {
    raw as int % modulus
}

/// The low bits of `raw`, below `modulus`, read as a two's complement number.
pub open spec fn low_signed(raw: u64, modulus: int) -> int {
    let low = raw as int % modulus;
    if 2 * low < modulus {
        low
    } else {
        low - modulus
    }
}

/// The payload that holds the two's complement number `v` in its low bits,
/// below `modulus`.
pub open spec fn signed_payload(v: int, modulus: int) -> int {
    if v >= 0 {
        v
    } else {
        v + modulus
    }
}

impl RawValue {
    /// The union's `uint8` field.
    pub open spec fn spec_uint8(self) -> u8 {
        low_unsigned(self.0, 0x100) as u8
    }

    /// Reads the union's `uint8` field.
    pub fn uint8(self) -> (v: u8)
        ensures
            v == self.spec_uint8(),
    {
        (self.0 % 0x100) as u8
    }

    /// The payload that holds `v` in the `uint8` field.
    pub open spec fn spec_from_uint8(v: u8) -> RawValue {
        RawValue(v as u64)
    }

    /// A payload that holds `v` in the `uint8` field.
    pub fn from_uint8(v: u8) -> (raw: RawValue)
        ensures
            raw == Self::spec_from_uint8(v),
            raw.spec_uint8() == v,
    {
        RawValue(v as u64)
    }

    /// The union's `uint16` field.
    pub open spec fn spec_uint16(self) -> u16 {
        low_unsigned(self.0, 0x10000) as u16
    }

    /// Reads the union's `uint16` field.
    pub fn uint16(self) -> (v: u16)
        ensures
            v == self.spec_uint16(),
    {
        (self.0 % 0x10000) as u16
    }

    /// The payload that holds `v` in the `uint16` field.
    pub open spec fn spec_from_uint16(v: u16) -> RawValue {
        RawValue(v as u64)
    }

    /// A payload that holds `v` in the `uint16` field.
    pub fn from_uint16(v: u16) -> (raw: RawValue)
        ensures
            raw == Self::spec_from_uint16(v),
            raw.spec_uint16() == v,
    {
        RawValue(v as u64)
    }

    /// The union's `uint32` field.
    pub open spec fn spec_uint32(self) -> u32 {
        low_unsigned(self.0, 0x100000000) as u32
    }

    /// Reads the union's `uint32` field.
    pub fn uint32(self) -> (v: u32)
        ensures
            v == self.spec_uint32(),
    {
        (self.0 % 0x100000000) as u32
    }

    /// The payload that holds `v` in the `uint32` field.
    pub open spec fn spec_from_uint32(v: u32) -> RawValue {
        RawValue(v as u64)
    }

    /// A payload that holds `v` in the `uint32` field.
    pub fn from_uint32(v: u32) -> (raw: RawValue)
        ensures
            raw == Self::spec_from_uint32(v),
            raw.spec_uint32() == v,
    {
        RawValue(v as u64)
    }

    /// The union's `uint64` field.
    pub open spec fn spec_uint64(self) -> u64 {
        self.0
    }

    /// Reads the union's `uint64` field.
    pub fn uint64(self) -> (v: u64)
        ensures
            v == self.spec_uint64(),
    {
        self.0
    }

    /// The payload that holds `v` in the `uint64` field.
    pub open spec fn spec_from_uint64(v: u64) -> RawValue {
        RawValue(v)
    }

    /// A payload that holds `v` in the `uint64` field.
    pub fn from_uint64(v: u64) -> (raw: RawValue)
        ensures
            raw == Self::spec_from_uint64(v),
            raw.spec_uint64() == v,
    {
        RawValue(v)
    }

    /// The union's `int8` field.
    pub open spec fn spec_int8(self) -> i8 {
        low_signed(self.0, 0x100) as i8
    }

    /// Reads the union's `int8` field.
    pub fn int8(self) -> (v: i8)
        ensures
            v == self.spec_int8(),
    {
        let low: u64 = self.0 % 0x100;
        if low < 0x80 {
            low as i8
        } else {
            (low as i64 - 0x100) as i8
        }
    }

    /// The payload that holds `v` in the `int8` field.
    pub open spec fn spec_from_int8(v: i8) -> RawValue {
        RawValue(signed_payload(v as int, 0x100) as u64)
    }

    /// A payload that holds `v` in the `int8` field.
    pub fn from_int8(v: i8) -> (raw: RawValue)
        ensures
            raw == Self::spec_from_int8(v),
            raw.spec_int8() == v,
    {
        if v >= 0 {
            RawValue(v as u64)
        } else {
            RawValue((v as i64 + 0x100) as u64)
        }
    }

    /// The union's `int16` field.
    pub open spec fn spec_int16(self) -> i16 {
        low_signed(self.0, 0x10000) as i16
    }

    /// Reads the union's `int16` field.
    pub fn int16(self) -> (v: i16)
        ensures
            v == self.spec_int16(),
    {
        let low: u64 = self.0 % 0x10000;
        if low < 0x8000 {
            low as i16
        } else {
            (low as i64 - 0x10000) as i16
        }
    }

    /// The payload that holds `v` in the `int16` field.
    pub open spec fn spec_from_int16(v: i16) -> RawValue {
        RawValue(signed_payload(v as int, 0x10000) as u64)
    }

    /// A payload that holds `v` in the `int16` field.
    pub fn from_int16(v: i16) -> (raw: RawValue)
        ensures
            raw == Self::spec_from_int16(v),
            raw.spec_int16() == v,
    {
        if v >= 0 {
            RawValue(v as u64)
        } else {
            RawValue((v as i64 + 0x10000) as u64)
        }
    }

    /// The union's `int32` field.
    pub open spec fn spec_int32(self) -> i32 {
        low_signed(self.0, 0x100000000) as i32
    }

    /// Reads the union's `int32` field.
    pub fn int32(self) -> (v: i32)
        ensures
            v == self.spec_int32(),
    {
        let low: u64 = self.0 % 0x100000000;
        if low < 0x80000000 {
            low as i32
        } else {
            (low as i64 - 0x100000000) as i32
        }
    }

    /// The payload that holds `v` in the `int32` field.
    pub open spec fn spec_from_int32(v: i32) -> RawValue {
        RawValue(signed_payload(v as int, 0x100000000) as u64)
    }

    /// A payload that holds `v` in the `int32` field.
    pub fn from_int32(v: i32) -> (raw: RawValue)
        ensures
            raw == Self::spec_from_int32(v),
            raw.spec_int32() == v,
    {
        if v >= 0 {
            RawValue(v as u64)
        } else {
            RawValue((v as i64 + 0x100000000) as u64)
        }
    }

    /// The union's `int64` field.
    pub open spec fn spec_int64(self) -> i64 {
        low_signed(self.0, 0x1_0000_0000_0000_0000) as i64
    }

    /// Reads the union's `int64` field.
    pub fn int64(self) -> (v: i64)
        ensures
            v == self.spec_int64(),
    {
        if self.0 < 0x8000_0000_0000_0000 {
            self.0 as i64
        } else {
            let high: u64 = self.0 - 0x8000_0000_0000_0000;
            (high as i64) - 0x4000_0000_0000_0000 - 0x4000_0000_0000_0000
        }
    }

    /// The payload that holds `v` in the `int64` field.
    pub open spec fn spec_from_int64(v: i64) -> RawValue {
        RawValue(signed_payload(v as int, 0x1_0000_0000_0000_0000) as u64)
    }

    /// A payload that holds `v` in the `int64` field.
    pub fn from_int64(v: i64) -> (raw: RawValue)
        ensures
            raw == Self::spec_from_int64(v),
            raw.spec_int64() == v,
    {
        if v >= 0 {
            RawValue(v as u64)
        } else {
            let high: i64 = v + 0x4000_0000_0000_0000 + 0x4000_0000_0000_0000;
            RawValue(high as u64 + 0x8000_0000_0000_0000)
        }
    }
}

} // verus!
