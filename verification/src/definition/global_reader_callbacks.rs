//! The callbacks of the global definition reader. Each decodes the
//! arguments that the engine hands over into the record of its kind and
//! hands it to the target of the read: the list that collects the
//! definitions, or a consumer that is shown each record as it comes.
use vstd::prelude::*;
use crate::attribute::AttributeValue;
use crate::attribute::decode;
use crate::attribute::decode_values;
use crate::attribute::decoded_values;
use crate::definition::defs::AttributeDef;
use crate::definition::defs::CallingContextDef;
use crate::definition::defs::CallingContextPropertyDef;
use crate::definition::defs::CallpathDef;
use crate::definition::defs::CallpathParameterDef;
use crate::definition::defs::CallsiteDef;
use crate::definition::defs::CartCoordinateDef;
use crate::definition::defs::CartDimensionDef;
use crate::definition::defs::CartTopologyDef;
use crate::definition::defs::ClockPropertiesDef;
use crate::definition::defs::CommDef;
use crate::definition::defs::Definition;
use crate::definition::defs::DefinitionKind;
use crate::definition::defs::GroupDef;
use crate::definition::defs::InterCommDef;
use crate::definition::defs::InterruptGeneratorDef;
use crate::definition::defs::IoDirectoryDef;
use crate::definition::defs::IoFilePropertyDef;
use crate::definition::defs::IoHandleDef;
use crate::definition::defs::IoParadigmDef;
use crate::definition::defs::IoPreCreatedHandleStateDef;
use crate::definition::defs::IoRegularFileDef;
use crate::definition::defs::LocationDef;
use crate::definition::defs::LocationGroupDef;
use crate::definition::defs::LocationGroupPropertyDef;
use crate::definition::defs::LocationPropertyDef;
use crate::definition::defs::MetricClassDef;
use crate::definition::defs::MetricClassRecorderDef;
use crate::definition::defs::MetricInstanceDef;
use crate::definition::defs::MetricMemberDef;
use crate::definition::defs::ParadigmDef;
use crate::definition::defs::ParadigmPropertyDef;
use crate::definition::defs::ParameterDef;
use crate::definition::defs::RegionDef;
use crate::definition::defs::RmaWinDef;
use crate::definition::defs::SourceCodeLocationDef;
use crate::definition::defs::SystemTreeNodeDef;
use crate::definition::defs::SystemTreeNodeDomainDef;
use crate::definition::defs::SystemTreeNodePropertyDef;
use crate::handle::Handle;
use crate::native::AttributeRef;
use crate::native::Base;
use crate::native::CallbackCode;
use crate::native::CallingContextRef;
use crate::native::CallpathRef;
use crate::native::CallsiteRef;
use crate::native::CartDimensionRef;
use crate::native::CartPeriodicity;
use crate::native::CartTopologyRef;
use crate::native::CommFlag;
use crate::native::CommRef;
use crate::native::GroupFlag;
use crate::native::GroupRef;
use crate::native::GroupType;
use crate::native::InterruptGeneratorMode;
use crate::native::InterruptGeneratorRef;
use crate::native::IoAccessMode;
use crate::native::IoFileRef;
use crate::native::IoHandleFlag;
use crate::native::IoHandleRef;
use crate::native::IoParadigmClass;
use crate::native::IoParadigmFlag;
use crate::native::IoParadigmProperty;
use crate::native::IoParadigmRef;
use crate::native::IoStatusFlag;
use crate::native::LocationGroupRef;
use crate::native::LocationGroupType;
use crate::native::LocationRef;
use crate::native::LocationType;
use crate::native::MetricMemberRef;
use crate::native::MetricMode;
use crate::native::MetricOccurrence;
use crate::native::MetricRef;
use crate::native::MetricScope;
use crate::native::MetricType;
use crate::native::Paradigm;
use crate::native::ParadigmClass;
use crate::native::ParadigmProperty;
use crate::native::ParameterRef;
use crate::native::ParameterType;
use crate::native::RawValue;
use crate::native::RecorderKind;
use crate::native::RegionFlag;
use crate::native::RegionRef;
use crate::native::RegionRole;
use crate::native::RmaWinFlag;
use crate::native::RmaWinRef;
use crate::native::SourceCodeLocationRef;
use crate::native::StringRef;
use crate::native::SystemTreeDomain;
use crate::native::SystemTreeNodeRef;
use crate::native::Type;
use crate::reader::plan::Step;
use crate::visitor::Sink;

verus! {

/// The definitions of a trace, in the order in which the engine reported
/// them.
#[derive(Debug)]
pub struct DefinitionList(pub Vec<Definition>);

impl View for DefinitionList {
    type V = Seq<Definition>;

    open spec fn view(&self) -> Seq<Definition> {
        self.0@
    }
}

impl DefinitionList {
    /// A list without definitions.
    pub fn new() -> (list: Self)
        ensures
            list@ == Seq::<Definition>::empty(),
    {
        Self(Vec::new())
    }
}

impl Sink<Definition> for DefinitionList {
    /// The list takes every record at its end, but for a record of unknown
    /// kind, which it passes over, and has the engine go on.
    open spec fn accepts(self, record: Definition, after: Self, code: CallbackCode) -> bool {
        code == CallbackCode::Success && after@ == (if record is Unknown {
            self@
        } else {
            self@.push(record)
        })
    }

    fn accept(&mut self, record: Definition) -> (code: CallbackCode) {
        match record {
            Definition::Unknown => {},
            known => {
                self.0.push(known);
            },
        }
        CallbackCode::Success
    }
}

/// The callback for a record of a kind that has no payload here: hands the
/// record of unknown kind to the target.
pub fn read_unknown_def<S: Sink<Definition>>(user_data: &mut S) -> (code: CallbackCode)
    ensures
        old(user_data).accepts(Definition::Unknown, *final(user_data), code),
{
    user_data.accept(Definition::Unknown)
}

/// The callback for a string: hands the string under its id to the target.
pub fn read_string_def<S: Sink<Definition>>(
    user_data: &mut S,
    defn: StringRef,
    value: String,
) -> (code: CallbackCode)
    ensures
        old(user_data).accepts(Definition::String { defn, value }, *final(user_data), code),
{
    user_data.accept(Definition::String { defn, value })
}

/// The callback for an attribute that records may carry: decodes the
/// arguments into the record and hands it to the target.
pub fn read_attribute_def<S: Sink<Definition>>(
    user_data: &mut S,
    defn: AttributeRef,
    name: StringRef,
    description: StringRef,
    kind: Type,
) -> (code: CallbackCode)
    ensures
        old(user_data).accepts(
            (Definition::Attribute {
                defn,
                value: AttributeDef { name, description, kind },
            }),
            *final(user_data),
            code,
        ),
{
    user_data.accept(
        Definition::Attribute { defn, value: AttributeDef { name, description, kind } },
    )
}

/// The callback for the properties of the trace's clock: decodes the
/// arguments into the record and hands it to the target.
pub fn read_clock_properties_def<S: Sink<Definition>>(
    user_data: &mut S,
    timer_resolution: u64,
    global_offset: u64,
    trace_length: u64,
    realtime_timestamp: u64,
) -> (code: CallbackCode)
    ensures
        old(user_data).accepts(
            (Definition::ClockProperties {
                value: ClockPropertiesDef {
                    timer_resolution,
                    global_offset,
                    trace_length,
                    realtime_timestamp,
                },
            }),
            *final(user_data),
            code,
        ),
{
    user_data.accept(
        Definition::ClockProperties {
            value: ClockPropertiesDef {
                timer_resolution,
                global_offset,
                trace_length,
                realtime_timestamp,
            },
        },
    )
}

/// The callback for a paradigm: decodes the arguments into the record and
/// hands it to the target.
pub fn read_paradigm_def<S: Sink<Definition>>(
    user_data: &mut S,
    paradigm: Paradigm,
    name: StringRef,
    paradigm_class: ParadigmClass,
) -> (code: CallbackCode)
    ensures
        old(user_data).accepts(
            (Definition::Paradigm {
                defn: paradigm,
                value: ParadigmDef { paradigm, name, paradigm_class },
            }),
            *final(user_data),
            code,
        ),
{
    user_data.accept(
        Definition::Paradigm {
            defn: paradigm,
            value: ParadigmDef { paradigm, name, paradigm_class },
        },
    )
}

/// The callback for a property of a paradigm: decodes the arguments into the
/// record and hands it to the target.
pub fn read_paradigm_property_def<S: Sink<Definition>>(
    user_data: &mut S,
    paradigm: Paradigm,
    property: ParadigmProperty,
    type_: Type,
    value: RawValue,
) -> (code: CallbackCode)
    ensures
        old(user_data).accepts(
            (Definition::ParadigmProperty {
                defn: paradigm,
                value: ParadigmPropertyDef { paradigm, property, value: decode(type_, value) },
            }),
            *final(user_data),
            code,
        ),
{
    user_data.accept(
        Definition::ParadigmProperty {
            defn: paradigm,
            value: ParadigmPropertyDef {
                paradigm,
                property,
                value: AttributeValue::new(type_, value),
            },
        },
    )
}

/// The callback for an I/O paradigm: decodes the arguments into the record
/// and hands it to the target.
pub fn read_io_paradigm_def<S: Sink<Definition>>(
    user_data: &mut S,
    defn: IoParadigmRef,
    identification: StringRef,
    name: StringRef,
    io_paradigm_class: IoParadigmClass,
    io_paradigm_flags: IoParadigmFlag,
    properties: Vec<IoParadigmProperty>,
    types: Vec<Type>,
    values: Vec<RawValue>,
) -> (code: CallbackCode)
    ensures
        exists|record: Definition| #[trigger]
            old(user_data).accepts(record, *final(user_data), code) && (record matches
            Definition::IoParadigm { defn: d, value: v } && d == defn
                && v.identification == identification
                && v.name == name
                && v.io_paradigm_class == io_paradigm_class
                && v.io_paradigm_flags == io_paradigm_flags
                && v.properties == properties
                && v.values@ == decoded_values(types@, values@)),
{
    let decoded = decode_values(&types, &values);
    user_data.accept(
        Definition::IoParadigm {
            defn,
            value: IoParadigmDef {
                identification,
                name,
                io_paradigm_class,
                io_paradigm_flags,
                properties,
                values: decoded,
            },
        },
    )
}

/// The callback for a node of the system tree: decodes the arguments into the
/// record and hands it to the target.
pub fn read_system_tree_node_def<S: Sink<Definition>>(
    user_data: &mut S,
    defn: SystemTreeNodeRef,
    name: StringRef,
    class_name: StringRef,
    parent: SystemTreeNodeRef,
) -> (code: CallbackCode)
    ensures
        old(user_data).accepts(
            (Definition::SystemTreeNode {
                defn,
                value: SystemTreeNodeDef { name, class_name, parent: parent.spec_defined() },
            }),
            *final(user_data),
            code,
        ),
{
    user_data.accept(
        Definition::SystemTreeNode {
            defn,
            value: SystemTreeNodeDef { name, class_name, parent: parent.defined() },
        },
    )
}

/// The callback for a property of a system tree node: decodes the arguments
/// into the record and hands it to the target.
pub fn read_system_tree_node_property_def<S: Sink<Definition>>(
    user_data: &mut S,
    system_tree_node: SystemTreeNodeRef,
    name: StringRef,
    type_: Type,
    value: RawValue,
) -> (code: CallbackCode)
    ensures
        old(user_data).accepts(
            (Definition::SystemTreeNodeProperty {
                defn: system_tree_node,
                value: SystemTreeNodePropertyDef {
                    system_tree_node,
                    name,
                    value: decode(type_, value),
                },
            }),
            *final(user_data),
            code,
        ),
{
    user_data.accept(
        Definition::SystemTreeNodeProperty {
            defn: system_tree_node,
            value: SystemTreeNodePropertyDef {
                system_tree_node,
                name,
                value: AttributeValue::new(type_, value),
            },
        },
    )
}

/// The callback for a domain of a system tree node: decodes the arguments
/// into the record and hands it to the target.
pub fn read_system_tree_node_domain_def<S: Sink<Definition>>(
    user_data: &mut S,
    system_tree_node: SystemTreeNodeRef,
    system_tree_domain: SystemTreeDomain,
) -> (code: CallbackCode)
    ensures
        old(user_data).accepts(
            (Definition::SystemTreeNodeDomain {
                defn: system_tree_node,
                value: SystemTreeNodeDomainDef { system_tree_node, system_tree_domain },
            }),
            *final(user_data),
            code,
        ),
{
    user_data.accept(
        Definition::SystemTreeNodeDomain {
            defn: system_tree_node,
            value: SystemTreeNodeDomainDef { system_tree_node, system_tree_domain },
        },
    )
}

/// The callback for a location: decodes the arguments into the record and
/// hands it to the target.
pub fn read_location_def<S: Sink<Definition>>(
    user_data: &mut S,
    defn: LocationRef,
    name: StringRef,
    location_type: LocationType,
    num_events: u64,
    location_group: LocationGroupRef,
) -> (code: CallbackCode)
    ensures
        old(user_data).accepts(
            (Definition::Location {
                defn,
                value: LocationDef { name, location_type, num_events, location_group },
            }),
            *final(user_data),
            code,
        ),
{
    user_data.accept(
        Definition::Location {
            defn,
            value: LocationDef { name, location_type, num_events, location_group },
        },
    )
}

/// The callback for a location group: decodes the arguments into the record
/// and hands it to the target.
pub fn read_location_group_def<S: Sink<Definition>>(
    user_data: &mut S,
    defn: LocationGroupRef,
    name: StringRef,
    location_group_type: LocationGroupType,
    system_tree_parent: SystemTreeNodeRef,
    creating_location_group: LocationGroupRef,
) -> (code: CallbackCode)
    ensures
        old(user_data).accepts(
            (Definition::LocationGroup {
                defn,
                value: LocationGroupDef {
                    name,
                    location_group_type,
                    system_tree_parent,
                    creating_location_group: creating_location_group.spec_defined(),
                },
            }),
            *final(user_data),
            code,
        ),
{
    user_data.accept(
        Definition::LocationGroup {
            defn,
            value: LocationGroupDef {
                name,
                location_group_type,
                system_tree_parent,
                creating_location_group: creating_location_group.defined(),
            },
        },
    )
}

/// The callback for a property of a location group: decodes the arguments
/// into the record and hands it to the target.
pub fn read_location_group_property_def<S: Sink<Definition>>(
    user_data: &mut S,
    location_group: LocationGroupRef,
    name: StringRef,
    type_: Type,
    value: RawValue,
) -> (code: CallbackCode)
    ensures
        old(user_data).accepts(
            (Definition::LocationGroupProperty {
                defn: location_group,
                value: LocationGroupPropertyDef {
                    location_group,
                    name,
                    value: decode(type_, value),
                },
            }),
            *final(user_data),
            code,
        ),
{
    user_data.accept(
        Definition::LocationGroupProperty {
            defn: location_group,
            value: LocationGroupPropertyDef {
                location_group,
                name,
                value: AttributeValue::new(type_, value),
            },
        },
    )
}

/// The callback for a property of a location: decodes the arguments into the
/// record and hands it to the target.
pub fn read_location_property_def<S: Sink<Definition>>(
    user_data: &mut S,
    location: LocationRef,
    name: StringRef,
    type_: Type,
    value: RawValue,
) -> (code: CallbackCode)
    ensures
        old(user_data).accepts(
            (Definition::LocationProperty {
                defn: location,
                value: LocationPropertyDef { location, name, value: decode(type_, value) },
            }),
            *final(user_data),
            code,
        ),
{
    user_data.accept(
        Definition::LocationProperty {
            defn: location,
            value: LocationPropertyDef {
                location,
                name,
                value: AttributeValue::new(type_, value),
            },
        },
    )
}

/// The callback for a region of code: decodes the arguments into the record
/// and hands it to the target.
pub fn read_region_def<S: Sink<Definition>>(
    user_data: &mut S,
    defn: RegionRef,
    name: StringRef,
    canonical_name: StringRef,
    description: StringRef,
    region_role: RegionRole,
    paradigm: Paradigm,
    region_flags: RegionFlag,
    source_file: StringRef,
    begin_line_number: u32,
    end_line_number: u32,
) -> (code: CallbackCode)
    ensures
        old(user_data).accepts(
            (Definition::Region {
                defn,
                value: RegionDef {
                    name,
                    canonical_name,
                    description,
                    region_role,
                    paradigm,
                    region_flags,
                    source_file,
                    begin_line_number,
                    end_line_number,
                },
            }),
            *final(user_data),
            code,
        ),
{
    user_data.accept(
        Definition::Region {
            defn,
            value: RegionDef {
                name,
                canonical_name,
                description,
                region_role,
                paradigm,
                region_flags,
                source_file,
                begin_line_number,
                end_line_number,
            },
        },
    )
}

/// The callback for a call site: decodes the arguments into the record and
/// hands it to the target.
pub fn read_callsite_def<S: Sink<Definition>>(
    user_data: &mut S,
    defn: CallsiteRef,
    source_file: StringRef,
    line_number: u32,
    entered_region: RegionRef,
    left_region: RegionRef,
) -> (code: CallbackCode)
    ensures
        old(user_data).accepts(
            (Definition::Callsite {
                defn,
                value: CallsiteDef { source_file, line_number, entered_region, left_region },
            }),
            *final(user_data),
            code,
        ),
{
    user_data.accept(
        Definition::Callsite {
            defn,
            value: CallsiteDef { source_file, line_number, entered_region, left_region },
        },
    )
}

/// The callback for a call path: decodes the arguments into the record and
/// hands it to the target.
pub fn read_callpath_def<S: Sink<Definition>>(
    user_data: &mut S,
    defn: CallpathRef,
    parent: CallpathRef,
    region: RegionRef,
) -> (code: CallbackCode)
    ensures
        old(user_data).accepts(
            (Definition::Callpath {
                defn,
                value: CallpathDef { parent: parent.spec_defined(), region },
            }),
            *final(user_data),
            code,
        ),
{
    user_data.accept(
        Definition::Callpath {
            defn,
            value: CallpathDef { parent: parent.defined(), region },
        },
    )
}

/// The callback for a parameter of a call path: decodes the arguments into
/// the record and hands it to the target.
pub fn read_callpath_parameter_def<S: Sink<Definition>>(
    user_data: &mut S,
    callpath: CallpathRef,
    parameter: ParameterRef,
    type_: Type,
    value: RawValue,
) -> (code: CallbackCode)
    ensures
        old(user_data).accepts(
            (Definition::CallpathParameter {
                defn: callpath,
                value: CallpathParameterDef {
                    callpath,
                    parameter,
                    value: decode(type_, value),
                },
            }),
            *final(user_data),
            code,
        ),
{
    user_data.accept(
        Definition::CallpathParameter {
            defn: callpath,
            value: CallpathParameterDef {
                callpath,
                parameter,
                value: AttributeValue::new(type_, value),
            },
        },
    )
}

/// The callback for a source code location: decodes the arguments into the
/// record and hands it to the target.
pub fn read_source_code_location_def<S: Sink<Definition>>(
    user_data: &mut S,
    defn: SourceCodeLocationRef,
    file: StringRef,
    line_number: u32,
) -> (code: CallbackCode)
    ensures
        old(user_data).accepts(
            (Definition::SourceCodeLocation {
                defn,
                value: SourceCodeLocationDef { file, line_number },
            }),
            *final(user_data),
            code,
        ),
{
    user_data.accept(
        Definition::SourceCodeLocation {
            defn,
            value: SourceCodeLocationDef { file, line_number },
        },
    )
}

/// The callback for a calling context: decodes the arguments into the record
/// and hands it to the target.
pub fn read_calling_context_def<S: Sink<Definition>>(
    user_data: &mut S,
    defn: CallingContextRef,
    region: RegionRef,
    source_code_location: SourceCodeLocationRef,
    parent: CallingContextRef,
) -> (code: CallbackCode)
    ensures
        old(user_data).accepts(
            (Definition::CallingContext {
                defn,
                value: CallingContextDef {
                    region,
                    source_code_location,
                    parent: parent.spec_defined(),
                },
            }),
            *final(user_data),
            code,
        ),
{
    user_data.accept(
        Definition::CallingContext {
            defn,
            value: CallingContextDef { region, source_code_location, parent: parent.defined() },
        },
    )
}

/// The callback for a property of a calling context: decodes the arguments
/// into the record and hands it to the target.
pub fn read_calling_context_property_def<S: Sink<Definition>>(
    user_data: &mut S,
    calling_context: CallingContextRef,
    name: StringRef,
    type_: Type,
    value: RawValue,
) -> (code: CallbackCode)
    ensures
        old(user_data).accepts(
            (Definition::CallingContextProperty {
                defn: calling_context,
                value: CallingContextPropertyDef {
                    calling_context,
                    name,
                    value: decode(type_, value),
                },
            }),
            *final(user_data),
            code,
        ),
{
    user_data.accept(
        Definition::CallingContextProperty {
            defn: calling_context,
            value: CallingContextPropertyDef {
                calling_context,
                name,
                value: AttributeValue::new(type_, value),
            },
        },
    )
}

/// The callback for a group: decodes the arguments into the record and hands
/// it to the target.
pub fn read_group_def<S: Sink<Definition>>(
    user_data: &mut S,
    defn: GroupRef,
    name: StringRef,
    group_type: GroupType,
    paradigm: Paradigm,
    group_flags: GroupFlag,
    members: Vec<u64>,
) -> (code: CallbackCode)
    ensures
        old(user_data).accepts(
            (Definition::Group {
                defn,
                value: GroupDef { name, group_type, paradigm, group_flags, members },
            }),
            *final(user_data),
            code,
        ),
{
    user_data.accept(
        Definition::Group {
            defn,
            value: GroupDef { name, group_type, paradigm, group_flags, members },
        },
    )
}

/// The callback for a member of a metric class: decodes the arguments into
/// the record and hands it to the target.
pub fn read_metric_member_def<S: Sink<Definition>>(
    user_data: &mut S,
    defn: MetricMemberRef,
    name: StringRef,
    description: StringRef,
    metric_type: MetricType,
    metric_mode: MetricMode,
    value_type: Type,
    base: Base,
    exponent: i64,
    unit: StringRef,
) -> (code: CallbackCode)
    ensures
        old(user_data).accepts(
            (Definition::MetricMember {
                defn,
                value: MetricMemberDef {
                    name,
                    description,
                    metric_type,
                    metric_mode,
                    value_type,
                    base,
                    exponent,
                    unit,
                },
            }),
            *final(user_data),
            code,
        ),
{
    user_data.accept(
        Definition::MetricMember {
            defn,
            value: MetricMemberDef {
                name,
                description,
                metric_type,
                metric_mode,
                value_type,
                base,
                exponent,
                unit,
            },
        },
    )
}

/// The callback for a metric class: decodes the arguments into the record and
/// hands it to the target.
pub fn read_metric_class_def<S: Sink<Definition>>(
    user_data: &mut S,
    defn: MetricRef,
    metric_members: Vec<MetricMemberRef>,
    metric_occurrence: MetricOccurrence,
    recorder_kind: RecorderKind,
) -> (code: CallbackCode)
    ensures
        old(user_data).accepts(
            (Definition::MetricClass {
                defn,
                value: MetricClassDef { metric_members, metric_occurrence, recorder_kind },
            }),
            *final(user_data),
            code,
        ),
{
    user_data.accept(
        Definition::MetricClass {
            defn,
            value: MetricClassDef { metric_members, metric_occurrence, recorder_kind },
        },
    )
}

/// The callback for a metric instance: decodes the arguments into the record
/// and hands it to the target.
pub fn read_metric_instance_def<S: Sink<Definition>>(
    user_data: &mut S,
    defn: MetricRef,
    metric_class: MetricRef,
    recorder: LocationRef,
    metric_scope: MetricScope,
    scope: u64,
) -> (code: CallbackCode)
    ensures
        old(user_data).accepts(
            (Definition::MetricInstance {
                defn,
                value: MetricInstanceDef { metric_class, recorder, metric_scope, scope },
            }),
            *final(user_data),
            code,
        ),
{
    user_data.accept(
        Definition::MetricInstance {
            defn,
            value: MetricInstanceDef { metric_class, recorder, metric_scope, scope },
        },
    )
}

/// The callback for a recorder of a metric class: decodes the arguments into
/// the record and hands it to the target.
pub fn read_metric_class_recorder_def<S: Sink<Definition>>(
    user_data: &mut S,
    metric_class: MetricRef,
    recorder: LocationRef,
) -> (code: CallbackCode)
    ensures
        old(user_data).accepts(
            (Definition::MetricClassRecorder {
                defn: metric_class,
                value: MetricClassRecorderDef { metric_class, recorder },
            }),
            *final(user_data),
            code,
        ),
{
    user_data.accept(
        Definition::MetricClassRecorder {
            defn: metric_class,
            value: MetricClassRecorderDef { metric_class, recorder },
        },
    )
}

/// The callback for a communicator: decodes the arguments into the record and
/// hands it to the target.
pub fn read_comm_def<S: Sink<Definition>>(
    user_data: &mut S,
    defn: CommRef,
    name: StringRef,
    group: GroupRef,
    parent: CommRef,
    flags: CommFlag,
) -> (code: CallbackCode)
    ensures
        old(user_data).accepts(
            (Definition::Comm {
                defn,
                value: CommDef { name, group, parent: parent.spec_defined(), flags },
            }),
            *final(user_data),
            code,
        ),
{
    user_data.accept(
        Definition::Comm {
            defn,
            value: CommDef { name, group, parent: parent.defined(), flags },
        },
    )
}

/// The callback for an inter-communicator: decodes the arguments into the
/// record and hands it to the target.
pub fn read_inter_comm_def<S: Sink<Definition>>(
    user_data: &mut S,
    defn: CommRef,
    name: StringRef,
    group_a: GroupRef,
    group_b: GroupRef,
    common_communicator: CommRef,
    flags: CommFlag,
) -> (code: CallbackCode)
    ensures
        old(user_data).accepts(
            (Definition::InterComm {
                defn,
                value: InterCommDef {
                    name,
                    group_a,
                    group_b,
                    common_communicator: common_communicator.spec_defined(),
                    flags,
                },
            }),
            *final(user_data),
            code,
        ),
{
    user_data.accept(
        Definition::InterComm {
            defn,
            value: InterCommDef {
                name,
                group_a,
                group_b,
                common_communicator: common_communicator.defined(),
                flags,
            },
        },
    )
}

/// The callback for a parameter: decodes the arguments into the record and
/// hands it to the target.
pub fn read_parameter_def<S: Sink<Definition>>(
    user_data: &mut S,
    defn: ParameterRef,
    name: StringRef,
    parameter_type: ParameterType,
) -> (code: CallbackCode)
    ensures
        old(user_data).accepts(
            (Definition::Parameter { defn, value: ParameterDef { name, parameter_type } }),
            *final(user_data),
            code,
        ),
{
    user_data.accept(
        Definition::Parameter { defn, value: ParameterDef { name, parameter_type } },
    )
}

/// The callback for an RMA window: decodes the arguments into the record and
/// hands it to the target.
pub fn read_rma_win_def<S: Sink<Definition>>(
    user_data: &mut S,
    defn: RmaWinRef,
    name: StringRef,
    comm: CommRef,
    flags: RmaWinFlag,
) -> (code: CallbackCode)
    ensures
        old(user_data).accepts(
            (Definition::RmaWin { defn, value: RmaWinDef { name, comm, flags } }),
            *final(user_data),
            code,
        ),
{
    user_data.accept(
        Definition::RmaWin { defn, value: RmaWinDef { name, comm, flags } },
    )
}

/// The callback for a cartesian dimension: decodes the arguments into the
/// record and hands it to the target.
pub fn read_cart_dimension_def<S: Sink<Definition>>(
    user_data: &mut S,
    defn: CartDimensionRef,
    name: StringRef,
    size: u32,
    periodic: CartPeriodicity,
) -> (code: CallbackCode)
    ensures
        old(user_data).accepts(
            (Definition::CartDimension {
                defn,
                value: CartDimensionDef { name, size, periodic },
            }),
            *final(user_data),
            code,
        ),
{
    user_data.accept(
        Definition::CartDimension {
            defn,
            value: CartDimensionDef { name, size, periodic },
        },
    )
}

/// The callback for a cartesian topology: decodes the arguments into the
/// record and hands it to the target.
pub fn read_cart_topology_def<S: Sink<Definition>>(
    user_data: &mut S,
    defn: CartTopologyRef,
    name: StringRef,
    communicator: CommRef,
    dimensions: Vec<CartDimensionRef>,
) -> (code: CallbackCode)
    ensures
        old(user_data).accepts(
            (Definition::CartTopology {
                defn,
                value: CartTopologyDef { name, communicator, dimensions },
            }),
            *final(user_data),
            code,
        ),
{
    user_data.accept(
        Definition::CartTopology {
            defn,
            value: CartTopologyDef { name, communicator, dimensions },
        },
    )
}

/// The callback for a coordinate in a cartesian topology: decodes the
/// arguments into the record and hands it to the target.
pub fn read_cart_coordinate_def<S: Sink<Definition>>(
    user_data: &mut S,
    topology: CartTopologyRef,
    rank: u32,
    coordinates: Vec<u32>,
) -> (code: CallbackCode)
    ensures
        old(user_data).accepts(
            (Definition::CartCoordinate {
                defn: topology,
                value: CartCoordinateDef { topology, rank, coordinates },
            }),
            *final(user_data),
            code,
        ),
{
    user_data.accept(
        Definition::CartCoordinate {
            defn: topology,
            value: CartCoordinateDef { topology, rank, coordinates },
        },
    )
}

/// The callback for an interrupt generator: decodes the arguments into the
/// record and hands it to the target.
pub fn read_interrupt_generator_def<S: Sink<Definition>>(
    user_data: &mut S,
    defn: InterruptGeneratorRef,
    name: StringRef,
    interrupt_generator_mode: InterruptGeneratorMode,
    base: Base,
    exponent: i64,
    period: u64,
) -> (code: CallbackCode)
    ensures
        old(user_data).accepts(
            (Definition::InterruptGenerator {
                defn,
                value: InterruptGeneratorDef {
                    name,
                    interrupt_generator_mode,
                    base,
                    exponent,
                    period,
                },
            }),
            *final(user_data),
            code,
        ),
{
    user_data.accept(
        Definition::InterruptGenerator {
            defn,
            value: InterruptGeneratorDef {
                name,
                interrupt_generator_mode,
                base,
                exponent,
                period,
            },
        },
    )
}

/// The callback for a property of an I/O file: decodes the arguments into the
/// record and hands it to the target.
pub fn read_io_file_property_def<S: Sink<Definition>>(
    user_data: &mut S,
    io_file: IoFileRef,
    name: StringRef,
    type_: Type,
    value: RawValue,
) -> (code: CallbackCode)
    ensures
        old(user_data).accepts(
            (Definition::IoFileProperty {
                defn: io_file,
                value: IoFilePropertyDef { io_file, name, value: decode(type_, value) },
            }),
            *final(user_data),
            code,
        ),
{
    user_data.accept(
        Definition::IoFileProperty {
            defn: io_file,
            value: IoFilePropertyDef {
                io_file,
                name,
                value: AttributeValue::new(type_, value),
            },
        },
    )
}

/// The callback for a regular file: decodes the arguments into the record and
/// hands it to the target.
pub fn read_io_regular_file_def<S: Sink<Definition>>(
    user_data: &mut S,
    defn: IoFileRef,
    name: StringRef,
    scope: SystemTreeNodeRef,
) -> (code: CallbackCode)
    ensures
        old(user_data).accepts(
            (Definition::IoRegularFile { defn, value: IoRegularFileDef { name, scope } }),
            *final(user_data),
            code,
        ),
{
    user_data.accept(
        Definition::IoRegularFile { defn, value: IoRegularFileDef { name, scope } },
    )
}

/// The callback for a directory: decodes the arguments into the record and
/// hands it to the target.
pub fn read_io_directory_def<S: Sink<Definition>>(
    user_data: &mut S,
    defn: IoFileRef,
    name: StringRef,
    scope: SystemTreeNodeRef,
) -> (code: CallbackCode)
    ensures
        old(user_data).accepts(
            (Definition::IoDirectory { defn, value: IoDirectoryDef { name, scope } }),
            *final(user_data),
            code,
        ),
{
    user_data.accept(
        Definition::IoDirectory { defn, value: IoDirectoryDef { name, scope } },
    )
}

/// The callback for an I/O handle: decodes the arguments into the record and
/// hands it to the target.
pub fn read_io_handle_def<S: Sink<Definition>>(
    user_data: &mut S,
    defn: IoHandleRef,
    name: StringRef,
    file: IoFileRef,
    io_paradigm: IoParadigmRef,
    io_handle_flags: IoHandleFlag,
    comm: CommRef,
    parent: IoHandleRef,
) -> (code: CallbackCode)
    ensures
        old(user_data).accepts(
            (Definition::IoHandle {
                defn,
                value: IoHandleDef {
                    name,
                    file,
                    io_paradigm,
                    io_handle_flags,
                    comm: comm.spec_defined(),
                    parent: parent.spec_defined(),
                },
            }),
            *final(user_data),
            code,
        ),
{
    user_data.accept(
        Definition::IoHandle {
            defn,
            value: IoHandleDef {
                name,
                file,
                io_paradigm,
                io_handle_flags,
                comm: comm.defined(),
                parent: parent.defined(),
            },
        },
    )
}

/// The callback for the state of an I/O handle that existed before the trace
/// began: decodes the arguments into the record and hands it to the target.
pub fn read_io_pre_created_handle_state_def<S: Sink<Definition>>(
    user_data: &mut S,
    io_handle: IoHandleRef,
    mode: IoAccessMode,
    status_flags: IoStatusFlag,
) -> (code: CallbackCode)
    ensures
        old(user_data).accepts(
            (Definition::IoPreCreatedHandleState {
                defn: io_handle,
                value: IoPreCreatedHandleStateDef { io_handle, mode, status_flags },
            }),
            *final(user_data),
            code,
        ),
{
    user_data.accept(
        Definition::IoPreCreatedHandleState {
            defn: io_handle,
            value: IoPreCreatedHandleStateDef { io_handle, mode, status_flags },
        },
    )
}

/// The resource that holds the registered definition callbacks.
#[derive(Debug)]
pub struct GlobalDefReaderCallbacksStruct;

/// The set of callbacks that the global definition reader is to call: the
/// owner of the native object that holds them.
pub struct GlobalDefReaderCallbacks(pub Handle<GlobalDefReaderCallbacksStruct>);

impl DefinitionKind {
    /// The kinds in the order in which their callbacks are registered.
    pub open spec fn spec_registration_order() -> Seq<DefinitionKind> {
        seq![
            DefinitionKind::Unknown,
            DefinitionKind::String,
            DefinitionKind::Attribute,
            DefinitionKind::ClockProperties,
            DefinitionKind::Paradigm,
            DefinitionKind::ParadigmProperty,
            DefinitionKind::IoParadigm,
            DefinitionKind::SystemTreeNode,
            DefinitionKind::SystemTreeNodeProperty,
            DefinitionKind::SystemTreeNodeDomain,
            DefinitionKind::LocationGroup,
            DefinitionKind::Location,
            DefinitionKind::LocationGroupProperty,
            DefinitionKind::LocationProperty,
            DefinitionKind::Region,
            DefinitionKind::Callsite,
            DefinitionKind::Callpath,
            DefinitionKind::CallpathParameter,
            DefinitionKind::SourceCodeLocation,
            DefinitionKind::CallingContext,
            DefinitionKind::CallingContextProperty,
            DefinitionKind::Group,
            DefinitionKind::MetricMember,
            DefinitionKind::MetricClass,
            DefinitionKind::MetricInstance,
            DefinitionKind::MetricClassRecorder,
            DefinitionKind::Comm,
            DefinitionKind::InterComm,
            DefinitionKind::Parameter,
            DefinitionKind::RmaWin,
            DefinitionKind::CartDimension,
            DefinitionKind::CartTopology,
            DefinitionKind::CartCoordinate,
            DefinitionKind::InterruptGenerator,
            DefinitionKind::IoFileProperty,
            DefinitionKind::IoRegularFile,
            DefinitionKind::IoDirectory,
            DefinitionKind::IoHandle,
            DefinitionKind::IoPreCreatedHandleState,
        ]
    }

    /// The place of a kind in the order of registration.
    pub open spec fn registration_index(self) -> int {
        match self {
            DefinitionKind::Unknown => 0,
            DefinitionKind::String => 1,
            DefinitionKind::Attribute => 2,
            DefinitionKind::ClockProperties => 3,
            DefinitionKind::Paradigm => 4,
            DefinitionKind::ParadigmProperty => 5,
            DefinitionKind::IoParadigm => 6,
            DefinitionKind::SystemTreeNode => 7,
            DefinitionKind::SystemTreeNodeProperty => 8,
            DefinitionKind::SystemTreeNodeDomain => 9,
            DefinitionKind::LocationGroup => 10,
            DefinitionKind::Location => 11,
            DefinitionKind::LocationGroupProperty => 12,
            DefinitionKind::LocationProperty => 13,
            DefinitionKind::Region => 14,
            DefinitionKind::Callsite => 15,
            DefinitionKind::Callpath => 16,
            DefinitionKind::CallpathParameter => 17,
            DefinitionKind::SourceCodeLocation => 18,
            DefinitionKind::CallingContext => 19,
            DefinitionKind::CallingContextProperty => 20,
            DefinitionKind::Group => 21,
            DefinitionKind::MetricMember => 22,
            DefinitionKind::MetricClass => 23,
            DefinitionKind::MetricInstance => 24,
            DefinitionKind::MetricClassRecorder => 25,
            DefinitionKind::Comm => 26,
            DefinitionKind::InterComm => 27,
            DefinitionKind::Parameter => 28,
            DefinitionKind::RmaWin => 29,
            DefinitionKind::CartDimension => 30,
            DefinitionKind::CartTopology => 31,
            DefinitionKind::CartCoordinate => 32,
            DefinitionKind::InterruptGenerator => 33,
            DefinitionKind::IoFileProperty => 34,
            DefinitionKind::IoRegularFile => 35,
            DefinitionKind::IoDirectory => 36,
            DefinitionKind::IoHandle => 37,
            DefinitionKind::IoPreCreatedHandleState => 38,
        }
    }

    /// Every kind has a callback: each stands in the order of registration,
    /// once, at its index.
    pub proof fn lemma_every_kind_is_registered(kind: DefinitionKind)
        ensures
            0 <= kind.registration_index() < Self::spec_registration_order().len(),
            Self::spec_registration_order()[kind.registration_index()] == kind,
            forall|i: int|
                0 <= i < Self::spec_registration_order().len()
                    && Self::spec_registration_order()[i] == kind ==> i
                    == kind.registration_index(),
    {
        let order = Self::spec_registration_order();
        assert forall|i: int| 0 <= i < order.len() && order[i] == kind implies i
            == kind.registration_index() by {
            assert(order[i].registration_index() == i);
        }
    }

    /// The kinds in the order in which their callbacks are registered.
    pub fn registration_order() -> (order: Vec<DefinitionKind>)
        ensures
            order@ == Self::spec_registration_order(),
    {
        let order = vec![
            DefinitionKind::Unknown,
            DefinitionKind::String,
            DefinitionKind::Attribute,
            DefinitionKind::ClockProperties,
            DefinitionKind::Paradigm,
            DefinitionKind::ParadigmProperty,
            DefinitionKind::IoParadigm,
            DefinitionKind::SystemTreeNode,
            DefinitionKind::SystemTreeNodeProperty,
            DefinitionKind::SystemTreeNodeDomain,
            DefinitionKind::LocationGroup,
            DefinitionKind::Location,
            DefinitionKind::LocationGroupProperty,
            DefinitionKind::LocationProperty,
            DefinitionKind::Region,
            DefinitionKind::Callsite,
            DefinitionKind::Callpath,
            DefinitionKind::CallpathParameter,
            DefinitionKind::SourceCodeLocation,
            DefinitionKind::CallingContext,
            DefinitionKind::CallingContextProperty,
            DefinitionKind::Group,
            DefinitionKind::MetricMember,
            DefinitionKind::MetricClass,
            DefinitionKind::MetricInstance,
            DefinitionKind::MetricClassRecorder,
            DefinitionKind::Comm,
            DefinitionKind::InterComm,
            DefinitionKind::Parameter,
            DefinitionKind::RmaWin,
            DefinitionKind::CartDimension,
            DefinitionKind::CartTopology,
            DefinitionKind::CartCoordinate,
            DefinitionKind::InterruptGenerator,
            DefinitionKind::IoFileProperty,
            DefinitionKind::IoRegularFile,
            DefinitionKind::IoDirectory,
            DefinitionKind::IoHandle,
            DefinitionKind::IoPreCreatedHandleState,
        ];
        proof {
            assert(order@ =~= Self::spec_registration_order());
        }
        order
    }
}

impl GlobalDefReaderCallbacks {
    /// The steps that register a callback for every kind of definition, one
    /// setter call for each kind, in the order of registration.
    pub open spec fn spec_set_callbacks() -> Seq<Step> {
        Seq::new(
            DefinitionKind::spec_registration_order().len(),
            |i: int| Step::SetDefCallback(DefinitionKind::spec_registration_order()[i]),
        )
    }

    /// Takes over the native callbacks object at `callbacks`.
    pub fn new(callbacks: usize) -> (this: Self)
        requires
            callbacks != 0,
        ensures
            this.0.addr() == callbacks,
    {
        Self(Handle::from_raw_unchecked(callbacks))
    }

    /// The steps that register a callback for every kind of definition, one
    /// setter call for each kind, in the order of registration. The runner
    /// of a plan that holds them ends the registration at the first setter
    /// that fails: the kinds after it are not registered.
    pub fn set_callbacks() -> (steps: Vec<Step>)
        ensures
            steps@ == Self::spec_set_callbacks(),
    {
        let kinds = DefinitionKind::registration_order();
        let mut steps: Vec<Step> = Vec::new();
        let mut i: usize = 0;
        while i < kinds.len()
            invariant
                i <= kinds.len(),
                kinds@ == DefinitionKind::spec_registration_order(),
                steps@ == Self::spec_set_callbacks().take(i as int),
            decreases kinds.len() - i,
        {
            steps.push(Step::SetDefCallback(kinds[i]));
            proof {
                assert(steps@ =~= Self::spec_set_callbacks().take(i + 1));
            }
            i += 1;
        }
        proof {
            assert(Self::spec_set_callbacks().take(i as int) =~= Self::spec_set_callbacks());
        }
        steps
    }

    /// Gives up the native object: the address to delete, once, or `None`
    /// where it was given up before.
    pub fn release(&mut self) -> (ptr: Option<usize>)
        ensures
            final(self).0.spec_is_null(),
            old(self).0.spec_is_null() ==> ptr is None,
            !old(self).0.spec_is_null() ==> ptr == Some(old(self).0.addr()),
    {
        if !self.0.is_null() {
            Some(self.0.take())
        } else {
            None
        }
    }
}

} // verus!
