//! The records of a trace's global definitions: one payload record for each
//! kind, and the sum type that carries any of them.
use vstd::prelude::*;
use crate::attribute::AttributeValue;
use crate::native::AttributeRef;
use crate::native::Base;
use crate::native::CallingContextRef;
use crate::native::CallpathRef;
use crate::native::CallsiteRef;
use crate::native::CartDimensionRef;
use crate::native::CartPeriodicity;
use crate::native::CartTopologyRef;
use crate::native::CommFlag;
use crate::native::CommRef;
use crate::native::GroupFlag;
use crate::native::GroupRef;
use crate::native::GroupType;
use crate::native::InterruptGeneratorMode;
use crate::native::InterruptGeneratorRef;
use crate::native::IoAccessMode;
use crate::native::IoFileRef;
use crate::native::IoHandleFlag;
use crate::native::IoHandleRef;
use crate::native::IoParadigmClass;
use crate::native::IoParadigmFlag;
use crate::native::IoParadigmProperty;
use crate::native::IoParadigmRef;
use crate::native::IoStatusFlag;
use crate::native::LocationGroupRef;
use crate::native::LocationGroupType;
use crate::native::LocationRef;
use crate::native::LocationType;
use crate::native::MetricMemberRef;
use crate::native::MetricMode;
use crate::native::MetricOccurrence;
use crate::native::MetricRef;
use crate::native::MetricScope;
use crate::native::MetricType;
use crate::native::Paradigm;
use crate::native::ParadigmClass;
use crate::native::ParadigmProperty;
use crate::native::ParameterRef;
use crate::native::ParameterType;
use crate::native::RecorderKind;
use crate::native::RegionFlag;
use crate::native::RegionRef;
use crate::native::RegionRole;
use crate::native::RmaWinFlag;
use crate::native::RmaWinRef;
use crate::native::SourceCodeLocationRef;
use crate::native::StringRef;
use crate::native::SystemTreeDomain;
use crate::native::SystemTreeNodeRef;
use crate::native::Type;

verus! {

/// What the trace says of an attribute that records may carry.
#[derive(Debug, Clone, Copy, PartialEq, Eq, Structural)]
pub struct AttributeDef {
    pub name: StringRef,
    pub description: StringRef,
    pub kind: Type,
}

/// What the trace says of the properties of the trace's clock.
#[derive(Debug, Clone, Copy, PartialEq, Eq, Structural)]
pub struct ClockPropertiesDef {
    pub timer_resolution: u64,
    pub global_offset: u64,
    pub trace_length: u64,
    pub realtime_timestamp: u64,
}

/// What the trace says of a paradigm.
#[derive(Debug, Clone, Copy, PartialEq, Eq, Structural)]
pub struct ParadigmDef {
    pub paradigm: Paradigm,
    pub name: StringRef,
    pub paradigm_class: ParadigmClass,
}

/// What the trace says of a property of a paradigm.
#[derive(Debug, Clone, Copy, PartialEq, Eq, Structural)]
pub struct ParadigmPropertyDef {
    pub paradigm: Paradigm,
    pub property: ParadigmProperty,
    pub value: AttributeValue,
}

/// What the trace says of an I/O paradigm.
#[derive(Debug, Clone, PartialEq, Eq)]
pub struct IoParadigmDef {
    pub identification: StringRef,
    pub name: StringRef,
    pub io_paradigm_class: IoParadigmClass,
    pub io_paradigm_flags: IoParadigmFlag,
    pub properties: Vec<IoParadigmProperty>,
    pub values: Vec<AttributeValue>,
}

/// What the trace says of a node of the system tree.
#[derive(Debug, Clone, Copy, PartialEq, Eq, Structural)]
pub struct SystemTreeNodeDef {
    pub name: StringRef,
    pub class_name: StringRef,
    pub parent: Option<SystemTreeNodeRef>,
}

/// What the trace says of a property of a system tree node.
#[derive(Debug, Clone, Copy, PartialEq, Eq, Structural)]
pub struct SystemTreeNodePropertyDef {
    pub system_tree_node: SystemTreeNodeRef,
    pub name: StringRef,
    pub value: AttributeValue,
}

/// What the trace says of a domain of a system tree node.
#[derive(Debug, Clone, Copy, PartialEq, Eq, Structural)]
pub struct SystemTreeNodeDomainDef {
    pub system_tree_node: SystemTreeNodeRef,
    pub system_tree_domain: SystemTreeDomain,
}

/// What the trace says of a location.
#[derive(Debug, Clone, Copy, PartialEq, Eq, Structural)]
pub struct LocationDef {
    pub name: StringRef,
    pub location_type: LocationType,
    pub num_events: u64,
    pub location_group: LocationGroupRef,
}

/// What the trace says of a location group.
#[derive(Debug, Clone, Copy, PartialEq, Eq, Structural)]
pub struct LocationGroupDef {
    pub name: StringRef,
    pub location_group_type: LocationGroupType,
    pub system_tree_parent: SystemTreeNodeRef,
    pub creating_location_group: Option<LocationGroupRef>,
}

/// What the trace says of a property of a location group.
#[derive(Debug, Clone, Copy, PartialEq, Eq, Structural)]
pub struct LocationGroupPropertyDef {
    pub location_group: LocationGroupRef,
    pub name: StringRef,
    pub value: AttributeValue,
}

/// What the trace says of a property of a location.
#[derive(Debug, Clone, Copy, PartialEq, Eq, Structural)]
pub struct LocationPropertyDef {
    pub location: LocationRef,
    pub name: StringRef,
    pub value: AttributeValue,
}

/// What the trace says of a region of code.
#[derive(Debug, Clone, Copy, PartialEq, Eq, Structural)]
pub struct RegionDef {
    pub name: StringRef,
    pub canonical_name: StringRef,
    pub description: StringRef,
    pub region_role: RegionRole,
    pub paradigm: Paradigm,
    pub region_flags: RegionFlag,
    pub source_file: StringRef,
    pub begin_line_number: u32,
    pub end_line_number: u32,
}

/// What the trace says of a call site.
#[derive(Debug, Clone, Copy, PartialEq, Eq, Structural)]
pub struct CallsiteDef {
    pub source_file: StringRef,
    pub line_number: u32,
    pub entered_region: RegionRef,
    pub left_region: RegionRef,
}

/// What the trace says of a call path.
#[derive(Debug, Clone, Copy, PartialEq, Eq, Structural)]
pub struct CallpathDef {
    pub parent: Option<CallpathRef>,
    pub region: RegionRef,
}

/// What the trace says of a parameter of a call path.
#[derive(Debug, Clone, Copy, PartialEq, Eq, Structural)]
pub struct CallpathParameterDef {
    pub callpath: CallpathRef,
    pub parameter: ParameterRef,
    pub value: AttributeValue,
}

/// What the trace says of a source code location.
#[derive(Debug, Clone, Copy, PartialEq, Eq, Structural)]
pub struct SourceCodeLocationDef {
    pub file: StringRef,
    pub line_number: u32,
}

/// What the trace says of a calling context.
#[derive(Debug, Clone, Copy, PartialEq, Eq, Structural)]
pub struct CallingContextDef {
    pub region: RegionRef,
    pub source_code_location: SourceCodeLocationRef,
    pub parent: Option<CallingContextRef>,
}

/// What the trace says of a property of a calling context.
#[derive(Debug, Clone, Copy, PartialEq, Eq, Structural)]
pub struct CallingContextPropertyDef {
    pub calling_context: CallingContextRef,
    pub name: StringRef,
    pub value: AttributeValue,
}

/// What the trace says of a group.
#[derive(Debug, Clone, PartialEq, Eq)]
pub struct GroupDef {
    pub name: StringRef,
    pub group_type: GroupType,
    pub paradigm: Paradigm,
    pub group_flags: GroupFlag,
    pub members: Vec<u64>,
}

/// What the trace says of a member of a metric class.
#[derive(Debug, Clone, Copy, PartialEq, Eq, Structural)]
pub struct MetricMemberDef {
    pub name: StringRef,
    pub description: StringRef,
    pub metric_type: MetricType,
    pub metric_mode: MetricMode,
    pub value_type: Type,
    pub base: Base,
    pub exponent: i64,
    pub unit: StringRef,
}

/// What the trace says of a metric class.
#[derive(Debug, Clone, PartialEq, Eq)]
pub struct MetricClassDef {
    pub metric_members: Vec<MetricMemberRef>,
    pub metric_occurrence: MetricOccurrence,
    pub recorder_kind: RecorderKind,
}

/// What the trace says of a metric instance.
#[derive(Debug, Clone, Copy, PartialEq, Eq, Structural)]
pub struct MetricInstanceDef {
    pub metric_class: MetricRef,
    pub recorder: LocationRef,
    pub metric_scope: MetricScope,
    pub scope: u64,
}

/// What the trace says of a recorder of a metric class.
#[derive(Debug, Clone, Copy, PartialEq, Eq, Structural)]
pub struct MetricClassRecorderDef {
    pub metric_class: MetricRef,
    pub recorder: LocationRef,
}

/// What the trace says of a communicator.
#[derive(Debug, Clone, Copy, PartialEq, Eq, Structural)]
pub struct CommDef {
    pub name: StringRef,
    pub group: GroupRef,
    pub parent: Option<CommRef>,
    pub flags: CommFlag,
}

/// What the trace says of an inter-communicator.
#[derive(Debug, Clone, Copy, PartialEq, Eq, Structural)]
pub struct InterCommDef {
    pub name: StringRef,
    pub group_a: GroupRef,
    pub group_b: GroupRef,
    pub common_communicator: Option<CommRef>,
    pub flags: CommFlag,
}

/// What the trace says of a parameter.
#[derive(Debug, Clone, Copy, PartialEq, Eq, Structural)]
pub struct ParameterDef {
    pub name: StringRef,
    pub parameter_type: ParameterType,
}

/// What the trace says of an RMA window.
#[derive(Debug, Clone, Copy, PartialEq, Eq, Structural)]
pub struct RmaWinDef {
    pub name: StringRef,
    pub comm: CommRef,
    pub flags: RmaWinFlag,
}

/// What the trace says of a cartesian dimension.
#[derive(Debug, Clone, Copy, PartialEq, Eq, Structural)]
pub struct CartDimensionDef {
    pub name: StringRef,
    pub size: u32,
    pub periodic: CartPeriodicity,
}

/// What the trace says of a cartesian topology.
#[derive(Debug, Clone, PartialEq, Eq)]
pub struct CartTopologyDef {
    pub name: StringRef,
    pub communicator: CommRef,
    pub dimensions: Vec<CartDimensionRef>,
}

/// What the trace says of a coordinate in a cartesian topology.
#[derive(Debug, Clone, PartialEq, Eq)]
pub struct CartCoordinateDef {
    pub topology: CartTopologyRef,
    pub rank: u32,
    pub coordinates: Vec<u32>,
}

/// What the trace says of an interrupt generator.
#[derive(Debug, Clone, Copy, PartialEq, Eq, Structural)]
pub struct InterruptGeneratorDef {
    pub name: StringRef,
    pub interrupt_generator_mode: InterruptGeneratorMode,
    pub base: Base,
    pub exponent: i64,
    pub period: u64,
}

/// What the trace says of a property of an I/O file.
#[derive(Debug, Clone, Copy, PartialEq, Eq, Structural)]
pub struct IoFilePropertyDef {
    pub io_file: IoFileRef,
    pub name: StringRef,
    pub value: AttributeValue,
}

/// What the trace says of a regular file.
#[derive(Debug, Clone, Copy, PartialEq, Eq, Structural)]
pub struct IoRegularFileDef {
    pub name: StringRef,
    pub scope: SystemTreeNodeRef,
}

/// What the trace says of a directory.
#[derive(Debug, Clone, Copy, PartialEq, Eq, Structural)]
pub struct IoDirectoryDef {
    pub name: StringRef,
    pub scope: SystemTreeNodeRef,
}

/// What the trace says of an I/O handle.
#[derive(Debug, Clone, Copy, PartialEq, Eq, Structural)]
pub struct IoHandleDef {
    pub name: StringRef,
    pub file: IoFileRef,
    pub io_paradigm: IoParadigmRef,
    pub io_handle_flags: IoHandleFlag,
    pub comm: Option<CommRef>,
    pub parent: Option<IoHandleRef>,
}

/// What the trace says of the state of an I/O handle that existed before the trace began.
#[derive(Debug, Clone, Copy, PartialEq, Eq, Structural)]
pub struct IoPreCreatedHandleStateDef {
    pub io_handle: IoHandleRef,
    pub mode: IoAccessMode,
    pub status_flags: IoStatusFlag,
}

/// One record of the global definitions. Each variant pairs the id that the
/// record defines, where its kind has one, with the payload of that kind.
#[allow(inconsistent_fields)]
#[derive(Debug, Clone, PartialEq, Eq)]
pub enum Definition {
    /// A record of a kind that this library has no payload for. Consumers
    /// are shown it; the list of definitions does not keep it.
    Unknown,
    String { defn: StringRef, value: String },
    Attribute { defn: AttributeRef, value: AttributeDef },
    ClockProperties { value: ClockPropertiesDef },
    Paradigm { defn: Paradigm, value: ParadigmDef },
    ParadigmProperty { defn: Paradigm, value: ParadigmPropertyDef },
    IoParadigm { defn: IoParadigmRef, value: IoParadigmDef },
    SystemTreeNode { defn: SystemTreeNodeRef, value: SystemTreeNodeDef },
    SystemTreeNodeProperty { defn: SystemTreeNodeRef, value: SystemTreeNodePropertyDef },
    SystemTreeNodeDomain { defn: SystemTreeNodeRef, value: SystemTreeNodeDomainDef },
    LocationGroup { defn: LocationGroupRef, value: LocationGroupDef },
    Location { defn: LocationRef, value: LocationDef },
    LocationGroupProperty { defn: LocationGroupRef, value: LocationGroupPropertyDef },
    LocationProperty { defn: LocationRef, value: LocationPropertyDef },
    Region { defn: RegionRef, value: RegionDef },
    Callsite { defn: CallsiteRef, value: CallsiteDef },
    Callpath { defn: CallpathRef, value: CallpathDef },
    CallpathParameter { defn: CallpathRef, value: CallpathParameterDef },
    SourceCodeLocation { defn: SourceCodeLocationRef, value: SourceCodeLocationDef },
    CallingContext { defn: CallingContextRef, value: CallingContextDef },
    CallingContextProperty { defn: CallingContextRef, value: CallingContextPropertyDef },
    Group { defn: GroupRef, value: GroupDef },
    MetricMember { defn: MetricMemberRef, value: MetricMemberDef },
    MetricClass { defn: MetricRef, value: MetricClassDef },
    MetricInstance { defn: MetricRef, value: MetricInstanceDef },
    MetricClassRecorder { defn: MetricRef, value: MetricClassRecorderDef },
    Comm { defn: CommRef, value: CommDef },
    InterComm { defn: CommRef, value: InterCommDef },
    Parameter { defn: ParameterRef, value: ParameterDef },
    RmaWin { defn: RmaWinRef, value: RmaWinDef },
    CartDimension { defn: CartDimensionRef, value: CartDimensionDef },
    CartTopology { defn: CartTopologyRef, value: CartTopologyDef },
    CartCoordinate { defn: CartTopologyRef, value: CartCoordinateDef },
    InterruptGenerator { defn: InterruptGeneratorRef, value: InterruptGeneratorDef },
    IoFileProperty { defn: IoFileRef, value: IoFilePropertyDef },
    IoRegularFile { defn: IoFileRef, value: IoRegularFileDef },
    IoDirectory { defn: IoFileRef, value: IoDirectoryDef },
    IoHandle { defn: IoHandleRef, value: IoHandleDef },
    IoPreCreatedHandleState { defn: IoHandleRef, value: IoPreCreatedHandleStateDef },
}

/// The kinds of record that the global definitions hold, and `Unknown` for a
/// record of a kind that this library has no variant for.
#[derive(Debug, Clone, Copy, PartialEq, Eq, Structural, Hash)]
pub enum DefinitionKind {
    Unknown,
    String,
    Attribute,
    ClockProperties,
    Paradigm,
    ParadigmProperty,
    IoParadigm,
    SystemTreeNode,
    SystemTreeNodeProperty,
    SystemTreeNodeDomain,
    Location,
    LocationGroup,
    LocationGroupProperty,
    LocationProperty,
    Region,
    Callsite,
    Callpath,
    CallpathParameter,
    SourceCodeLocation,
    CallingContext,
    CallingContextProperty,
    Group,
    MetricMember,
    MetricClass,
    MetricInstance,
    MetricClassRecorder,
    Comm,
    InterComm,
    Parameter,
    RmaWin,
    CartDimension,
    CartTopology,
    CartCoordinate,
    InterruptGenerator,
    IoFileProperty,
    IoRegularFile,
    IoDirectory,
    IoHandle,
    IoPreCreatedHandleState,
}

/// The kinds of record that form trees: a record of such a kind may name a
/// parent, which is a record of the same kind.
#[derive(Debug, Clone, Copy, PartialEq, Eq, Structural, Hash)]
pub enum TreeKind {
    SystemTreeNode,
    Callpath,
    CallingContext,
    Comm,
    IoHandle,
}

impl Definition {
    /// The kind of this record.
    pub open spec fn spec_kind(self) -> DefinitionKind {
        match self {
            Definition::Unknown => DefinitionKind::Unknown,
            Definition::String { .. } => DefinitionKind::String,
            Definition::Attribute { .. } => DefinitionKind::Attribute,
            Definition::ClockProperties { .. } => DefinitionKind::ClockProperties,
            Definition::Paradigm { .. } => DefinitionKind::Paradigm,
            Definition::ParadigmProperty { .. } => DefinitionKind::ParadigmProperty,
            Definition::IoParadigm { .. } => DefinitionKind::IoParadigm,
            Definition::SystemTreeNode { .. } => DefinitionKind::SystemTreeNode,
            Definition::SystemTreeNodeProperty { .. } => DefinitionKind::SystemTreeNodeProperty,
            Definition::SystemTreeNodeDomain { .. } => DefinitionKind::SystemTreeNodeDomain,
            Definition::Location { .. } => DefinitionKind::Location,
            Definition::LocationGroup { .. } => DefinitionKind::LocationGroup,
            Definition::LocationGroupProperty { .. } => DefinitionKind::LocationGroupProperty,
            Definition::LocationProperty { .. } => DefinitionKind::LocationProperty,
            Definition::Region { .. } => DefinitionKind::Region,
            Definition::Callsite { .. } => DefinitionKind::Callsite,
            Definition::Callpath { .. } => DefinitionKind::Callpath,
            Definition::CallpathParameter { .. } => DefinitionKind::CallpathParameter,
            Definition::SourceCodeLocation { .. } => DefinitionKind::SourceCodeLocation,
            Definition::CallingContext { .. } => DefinitionKind::CallingContext,
            Definition::CallingContextProperty { .. } => DefinitionKind::CallingContextProperty,
            Definition::Group { .. } => DefinitionKind::Group,
            Definition::MetricMember { .. } => DefinitionKind::MetricMember,
            Definition::MetricClass { .. } => DefinitionKind::MetricClass,
            Definition::MetricInstance { .. } => DefinitionKind::MetricInstance,
            Definition::MetricClassRecorder { .. } => DefinitionKind::MetricClassRecorder,
            Definition::Comm { .. } => DefinitionKind::Comm,
            Definition::InterComm { .. } => DefinitionKind::InterComm,
            Definition::Parameter { .. } => DefinitionKind::Parameter,
            Definition::RmaWin { .. } => DefinitionKind::RmaWin,
            Definition::CartDimension { .. } => DefinitionKind::CartDimension,
            Definition::CartTopology { .. } => DefinitionKind::CartTopology,
            Definition::CartCoordinate { .. } => DefinitionKind::CartCoordinate,
            Definition::InterruptGenerator { .. } => DefinitionKind::InterruptGenerator,
            Definition::IoFileProperty { .. } => DefinitionKind::IoFileProperty,
            Definition::IoRegularFile { .. } => DefinitionKind::IoRegularFile,
            Definition::IoDirectory { .. } => DefinitionKind::IoDirectory,
            Definition::IoHandle { .. } => DefinitionKind::IoHandle,
            Definition::IoPreCreatedHandleState { .. } => DefinitionKind::IoPreCreatedHandleState,
        }
    }

    /// The kind of this record.
    pub fn kind(&self) -> (kind: DefinitionKind)
        ensures
            kind == self.spec_kind(),
    {
        match self {
            Definition::Unknown => DefinitionKind::Unknown,
            Definition::String { .. } => DefinitionKind::String,
            Definition::Attribute { .. } => DefinitionKind::Attribute,
            Definition::ClockProperties { .. } => DefinitionKind::ClockProperties,
            Definition::Paradigm { .. } => DefinitionKind::Paradigm,
            Definition::ParadigmProperty { .. } => DefinitionKind::ParadigmProperty,
            Definition::IoParadigm { .. } => DefinitionKind::IoParadigm,
            Definition::SystemTreeNode { .. } => DefinitionKind::SystemTreeNode,
            Definition::SystemTreeNodeProperty { .. } => DefinitionKind::SystemTreeNodeProperty,
            Definition::SystemTreeNodeDomain { .. } => DefinitionKind::SystemTreeNodeDomain,
            Definition::Location { .. } => DefinitionKind::Location,
            Definition::LocationGroup { .. } => DefinitionKind::LocationGroup,
            Definition::LocationGroupProperty { .. } => DefinitionKind::LocationGroupProperty,
            Definition::LocationProperty { .. } => DefinitionKind::LocationProperty,
            Definition::Region { .. } => DefinitionKind::Region,
            Definition::Callsite { .. } => DefinitionKind::Callsite,
            Definition::Callpath { .. } => DefinitionKind::Callpath,
            Definition::CallpathParameter { .. } => DefinitionKind::CallpathParameter,
            Definition::SourceCodeLocation { .. } => DefinitionKind::SourceCodeLocation,
            Definition::CallingContext { .. } => DefinitionKind::CallingContext,
            Definition::CallingContextProperty { .. } => DefinitionKind::CallingContextProperty,
            Definition::Group { .. } => DefinitionKind::Group,
            Definition::MetricMember { .. } => DefinitionKind::MetricMember,
            Definition::MetricClass { .. } => DefinitionKind::MetricClass,
            Definition::MetricInstance { .. } => DefinitionKind::MetricInstance,
            Definition::MetricClassRecorder { .. } => DefinitionKind::MetricClassRecorder,
            Definition::Comm { .. } => DefinitionKind::Comm,
            Definition::InterComm { .. } => DefinitionKind::InterComm,
            Definition::Parameter { .. } => DefinitionKind::Parameter,
            Definition::RmaWin { .. } => DefinitionKind::RmaWin,
            Definition::CartDimension { .. } => DefinitionKind::CartDimension,
            Definition::CartTopology { .. } => DefinitionKind::CartTopology,
            Definition::CartCoordinate { .. } => DefinitionKind::CartCoordinate,
            Definition::InterruptGenerator { .. } => DefinitionKind::InterruptGenerator,
            Definition::IoFileProperty { .. } => DefinitionKind::IoFileProperty,
            Definition::IoRegularFile { .. } => DefinitionKind::IoRegularFile,
            Definition::IoDirectory { .. } => DefinitionKind::IoDirectory,
            Definition::IoHandle { .. } => DefinitionKind::IoHandle,
            Definition::IoPreCreatedHandleState { .. } => DefinitionKind::IoPreCreatedHandleState,
        }
    }

    /// The tree node that this record defines, if it is of a tree-shaped
    /// kind: the kind and the id.
    pub open spec fn node(self) -> Option<(TreeKind, u32)> {
        match self {
            Definition::SystemTreeNode { defn, .. } => Some((TreeKind::SystemTreeNode, defn.0)),
            Definition::Callpath { defn, .. } => Some((TreeKind::Callpath, defn.0)),
            Definition::CallingContext { defn, .. } => Some((TreeKind::CallingContext, defn.0)),
            Definition::Comm { defn, .. } => Some((TreeKind::Comm, defn.0)),
            Definition::IoHandle { defn, .. } => Some((TreeKind::IoHandle, defn.0)),
            _ => None,
        }
    }

    /// The tree node that this record names as its parent, if it names one.
    pub open spec fn parent(self) -> Option<(TreeKind, u32)> {
        match self {
            Definition::SystemTreeNode { value, .. } => match value.parent {
                Some(parent) => Some((TreeKind::SystemTreeNode, parent.0)),
                None => None,
            },
            Definition::Callpath { value, .. } => match value.parent {
                Some(parent) => Some((TreeKind::Callpath, parent.0)),
                None => None,
            },
            Definition::CallingContext { value, .. } => match value.parent {
                Some(parent) => Some((TreeKind::CallingContext, parent.0)),
                None => None,
            },
            Definition::Comm { value, .. } => match value.parent {
                Some(parent) => Some((TreeKind::Comm, parent.0)),
                None => None,
            },
            Definition::IoHandle { value, .. } => match value.parent {
                Some(parent) => Some((TreeKind::IoHandle, parent.0)),
                None => None,
            },
            _ => None,
        }
    }
}

/// That every record which names a parent stands at or after the record that
/// defines that parent.
pub open spec fn parents_first(definitions: Seq<Definition>) -> bool {
    forall|i: int|
        0 <= i < definitions.len() && (#[trigger] definitions[i]).parent() is Some ==> defined_by(
            definitions,
            i,
            definitions[i].parent(),
        )
}

/// That one of the first `upto + 1` records defines the tree node `node`.
pub open spec fn defined_by(
    definitions: Seq<Definition>,
    upto: int,
    node: Option<(TreeKind, u32)>,
) -> bool {
    exists|j: int|
        0 <= j <= upto && j < definitions.len() && (#[trigger] definitions[j]).node() == node
}

/// Appending keeps the order: where every parent so far stands at or before
/// its children, and the next record names no parent, or names one that was
/// already delivered, or is its own parent, the longer list has every parent
/// at or before its children too. So a list that was filled in the order in
/// which the engine reported the records has the order that the engine kept.
pub proof fn lemma_push_keeps_parents_first(definitions: Seq<Definition>, next: Definition)
    requires
        parents_first(definitions),
        next.parent() is Some ==> next.node() == next.parent() || defined_by(
            definitions,
            definitions.len() - 1,
            next.parent(),
        ),
    ensures
        parents_first(definitions.push(next)),
{
    let longer = definitions.push(next);
    assert forall|i: int|
        0 <= i < longer.len() && (#[trigger] longer[i]).parent() is Some implies defined_by(
        longer,
        i,
        longer[i].parent(),
    ) by {
        if i < definitions.len() {
            assert(longer[i] == definitions[i]);
            assert(defined_by(definitions, i, definitions[i].parent()));
            let j = choose|j: int|
                0 <= j <= i && j < definitions.len() && (#[trigger] definitions[j]).node()
                    == definitions[i].parent();
            assert(longer[j] == definitions[j]);
        } else {
            assert(longer[i] == next);
            if next.node() == next.parent() {
                assert(longer[i].node() == longer[i].parent());
            } else {
                let j = choose|j: int|
                    0 <= j <= definitions.len() - 1 && j < definitions.len() && (
                    #[trigger] definitions[j]).node() == next.parent();
                assert(longer[j] == definitions[j]);
            }
        }
    }
}

} // verus!
