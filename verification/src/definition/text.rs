//! The line of text that describes a definition, for diagnostics: the name of
//! its kind, then its fields by name, ids and numbers in decimal.
use vstd::prelude::*;
use crate::definition::defs::Definition;
use crate::display::decimal;
use crate::display::push_decimal;
use crate::display::push_signed_decimal;
use crate::display::push_str;
use crate::display::signed_decimal;

verus! {

/// The text of an id that may be missing: `Some(..)` around the number of
/// one that is there, `None` for one that is not.
pub open spec fn optional_text(id: Option<u64>) -> Seq<char> {
    match id {
        Some(n) => "Some("@ + decimal(n as nat) + ")"@,
        None => "None"@,
    }
}

/// Appends the text of an id that may be missing.
pub fn push_optional(text: &mut String, id: Option<u64>)
    ensures
        final(text)@ == old(text)@ + optional_text(id),
{
    match id {
        Some(n) => {
            let ghost start = text@;
            push_str(text, "Some(");
            push_decimal(text, n);
            push_str(text, ")");
            proof {
                assert(text@ =~= start + ("Some("@ + decimal(n as nat) + ")"@));
            }
        },
        None => push_str(text, "None"),
    }
}

/// The line that describes a definition: the name of its kind, then each
/// field with its name. A string is written as it stands, an id or a number
/// in decimal, a list as the number of its items, and the value of a
/// property as the number of its type alone.
pub open spec fn definition_text(definition: Definition) -> Seq<char> {
    match definition {
        Definition::Unknown => "visit_unknown"@,
        Definition::String { defn, value } => {
            "visit_string: defn: "@
                + decimal(defn.0 as nat)
                + ", value: "@
                + value@
        },
        Definition::Attribute { defn, value } => {
            "visit_attribute: defn: "@
                + decimal(defn.0 as nat)
                + ", name: "@
                + decimal(value.name.0 as nat)
                + ", description: "@
                + decimal(value.description.0 as nat)
                + ", type: "@
                + decimal(value.kind.0 as nat)
        },
        Definition::ClockProperties { value } => {
            "visit_clock_properties: timer_resolution: "@
                + decimal(value.timer_resolution as nat)
                + ", global_offset: "@
                + decimal(value.global_offset as nat)
                + ", trace_length: "@
                + decimal(value.trace_length as nat)
                + ", realtime_timestamp: "@
                + decimal(value.realtime_timestamp as nat)
        },
        Definition::Paradigm { defn: _, value } => {
            "visit_paradigm: paradigm: "@
                + decimal(value.paradigm as nat)
                + ", name: "@
                + decimal(value.name.0 as nat)
                + ", paradigm_class: "@
                + decimal(value.paradigm_class as nat)
        },
        Definition::ParadigmProperty { defn: _, value } => {
            "visit_paradigm_property: paradigm: "@
                + decimal(value.paradigm as nat)
                + ", property: "@
                + decimal(value.property as nat)
                + ", type: "@
                + decimal(value.value.spec_kind().spec_number() as nat)
                + ", value: <attr_value>"@
        },
        Definition::IoParadigm { defn, value } => {
            "visit_io_paradigm: defn: "@
                + decimal(defn.0 as nat)
                + ", identification: "@
                + decimal(value.identification.0 as nat)
                + ", name: "@
                + decimal(value.name.0 as nat)
                + ", io_paradigm_class: "@
                + decimal(value.io_paradigm_class as nat)
                + ", io_paradigm_flags: "@
                + decimal(value.io_paradigm_flags as nat)
                + ", properties: "@
                + decimal(value.properties@.len())
                + " items"@
        },
        Definition::SystemTreeNode { defn, value } => {
            "visit_system_tree_node: defn: "@
                + decimal(defn.0 as nat)
                + ", name: "@
                + decimal(value.name.0 as nat)
                + ", class_name: "@
                + decimal(value.class_name.0 as nat)
                + ", parent: "@
                + optional_text(
                    match value.parent {
                        Some(id) => Some(id.0 as u64),
                        None => None,
                    },
                )
        },
        Definition::SystemTreeNodeProperty { defn: _, value } => {
            "visit_system_tree_node_property: system_tree_node: "@
                + decimal(value.system_tree_node.0 as nat)
                + ", name: "@
                + decimal(value.name.0 as nat)
                + ", type: "@
                + decimal(value.value.spec_kind().spec_number() as nat)
                + ", value: <attr_value>"@
        },
        Definition::SystemTreeNodeDomain { defn: _, value } => {
            "visit_system_tree_node_domain: system_tree_node: "@
                + decimal(value.system_tree_node.0 as nat)
                + ", system_tree_domain: "@
                + decimal(value.system_tree_domain as nat)
        },
        Definition::LocationGroup { defn, value } => {
            "visit_location_group: defn: "@
                + decimal(defn.0 as nat)
                + ", name: "@
                + decimal(value.name.0 as nat)
                + ", location_group_type: "@
                + decimal(value.location_group_type as nat)
                + ", system_tree_parent: "@
                + decimal(value.system_tree_parent.0 as nat)
                + ", creating_location_group: "@
                + optional_text(
                    match value.creating_location_group {
                        Some(id) => Some(id.0 as u64),
                        None => None,
                    },
                )
        },
        Definition::Location { defn, value } => {
            "visit_location: defn: "@
                + decimal(defn.0 as nat)
                + ", name: "@
                + decimal(value.name.0 as nat)
                + ", location_type: "@
                + decimal(value.location_type as nat)
                + ", num_events: "@
                + decimal(value.num_events as nat)
                + ", location_group: "@
                + decimal(value.location_group.0 as nat)
        },
        Definition::LocationGroupProperty { defn: _, value } => {
            "visit_location_group_property: location_group: "@
                + decimal(value.location_group.0 as nat)
                + ", name: "@
                + decimal(value.name.0 as nat)
                + ", type: "@
                + decimal(value.value.spec_kind().spec_number() as nat)
                + ", value: <attr_value>"@
        },
        Definition::LocationProperty { defn: _, value } => {
            "visit_location_property: location: "@
                + decimal(value.location.0 as nat)
                + ", name: "@
                + decimal(value.name.0 as nat)
                + ", type: "@
                + decimal(value.value.spec_kind().spec_number() as nat)
                + ", value: <attr_value>"@
        },
        Definition::Region { defn, value } => {
            "visit_region: defn: "@
                + decimal(defn.0 as nat)
                + ", name: "@
                + decimal(value.name.0 as nat)
                + ", canonical_name: "@
                + decimal(value.canonical_name.0 as nat)
                + ", description: "@
                + decimal(value.description.0 as nat)
                + ", region_role: "@
                + decimal(value.region_role as nat)
                + ", paradigm: "@
                + decimal(value.paradigm as nat)
                + ", region_flags: "@
                + decimal(value.region_flags as nat)
                + ", source_file: "@
                + decimal(value.source_file.0 as nat)
                + ", begin_line_number: "@
                + decimal(value.begin_line_number as nat)
                + ", end_line_number: "@
                + decimal(value.end_line_number as nat)
        },
        Definition::Callsite { defn, value } => {
            "visit_callsite: defn: "@
                + decimal(defn.0 as nat)
                + ", source_file: "@
                + decimal(value.source_file.0 as nat)
                + ", line_number: "@
                + decimal(value.line_number as nat)
                + ", entered_region: "@
                + decimal(value.entered_region.0 as nat)
                + ", left_region: "@
                + decimal(value.left_region.0 as nat)
        },
        Definition::Callpath { defn, value } => {
            "visit_callpath: defn: "@
                + decimal(defn.0 as nat)
                + ", parent: "@
                + optional_text(
                    match value.parent {
                        Some(id) => Some(id.0 as u64),
                        None => None,
                    },
                )
                + ", region: "@
                + decimal(value.region.0 as nat)
        },
        Definition::CallpathParameter { defn: _, value } => {
            "visit_callpath_parameter: callpath: "@
                + decimal(value.callpath.0 as nat)
                + ", parameter: "@
                + decimal(value.parameter.0 as nat)
                + ", type: "@
                + decimal(value.value.spec_kind().spec_number() as nat)
                + ", value: <attr_value>"@
        },
        Definition::SourceCodeLocation { defn, value } => {
            "visit_source_code_location: defn: "@
                + decimal(defn.0 as nat)
                + ", file: "@
                + decimal(value.file.0 as nat)
                + ", line_number: "@
                + decimal(value.line_number as nat)
        },
        Definition::CallingContext { defn, value } => {
            "visit_calling_context: defn: "@
                + decimal(defn.0 as nat)
                + ", region: "@
                + decimal(value.region.0 as nat)
                + ", source_code_location: "@
                + decimal(value.source_code_location.0 as nat)
                + ", parent: "@
                + optional_text(
                    match value.parent {
                        Some(id) => Some(id.0 as u64),
                        None => None,
                    },
                )
        },
        Definition::CallingContextProperty { defn: _, value } => {
            "visit_calling_context_property: calling_context: "@
                + decimal(value.calling_context.0 as nat)
                + ", name: "@
                + decimal(value.name.0 as nat)
                + ", type: "@
                + decimal(value.value.spec_kind().spec_number() as nat)
                + ", value: <attr_value>"@
        },
        Definition::Group { defn, value } => {
            "visit_group: defn: "@
                + decimal(defn.0 as nat)
                + ", name: "@
                + decimal(value.name.0 as nat)
                + ", group_type: "@
                + decimal(value.group_type as nat)
                + ", paradigm: "@
                + decimal(value.paradigm as nat)
                + ", group_flags: "@
                + decimal(value.group_flags as nat)
                + ", members: "@
                + decimal(value.members@.len())
                + " items"@
        },
        Definition::MetricMember { defn, value } => {
            "visit_metric_member: defn: "@
                + decimal(defn.0 as nat)
                + ", name: "@
                + decimal(value.name.0 as nat)
                + ", description: "@
                + decimal(value.description.0 as nat)
                + ", metric_type: "@
                + decimal(value.metric_type as nat)
                + ", metric_mode: "@
                + decimal(value.metric_mode as nat)
                + ", value_type: "@
                + decimal(value.value_type.0 as nat)
                + ", base: "@
                + decimal(value.base as nat)
                + ", exponent: "@
                + signed_decimal(value.exponent as int)
                + ", unit: "@
                + decimal(value.unit.0 as nat)
        },
        Definition::MetricClass { defn, value } => {
            "visit_metric_class: defn: "@
                + decimal(defn.0 as nat)
                + ", metric_members: "@
                + decimal(value.metric_members@.len())
                + " items, metric_occurrence: "@
                + decimal(value.metric_occurrence as nat)
                + ", recorder_kind: "@
                + decimal(value.recorder_kind as nat)
        },
        Definition::MetricInstance { defn, value } => {
            "visit_metric_instance: defn: "@
                + decimal(defn.0 as nat)
                + ", metric_class: "@
                + decimal(value.metric_class.0 as nat)
                + ", recorder: "@
                + decimal(value.recorder.0 as nat)
                + ", metric_scope: "@
                + decimal(value.metric_scope as nat)
                + ", scope: "@
                + decimal(value.scope as nat)
        },
        Definition::MetricClassRecorder { defn: _, value } => {
            "visit_metric_class_recorder: metric_class: "@
                + decimal(value.metric_class.0 as nat)
                + ", recorder: "@
                + decimal(value.recorder.0 as nat)
        },
        Definition::Comm { defn, value } => {
            "visit_comm: defn: "@
                + decimal(defn.0 as nat)
                + ", name: "@
                + decimal(value.name.0 as nat)
                + ", group: "@
                + decimal(value.group.0 as nat)
                + ", parent: "@
                + optional_text(
                    match value.parent {
                        Some(id) => Some(id.0 as u64),
                        None => None,
                    },
                )
        },
        Definition::InterComm { defn, value } => {
            "visit_inter_comm: defn: "@
                + decimal(defn.0 as nat)
                + ", name: "@
                + decimal(value.name.0 as nat)
                + ", group_a: "@
                + decimal(value.group_a.0 as nat)
                + ", group_b: "@
                + decimal(value.group_b.0 as nat)
                + ", common_communicator: "@
                + optional_text(
                    match value.common_communicator {
                        Some(id) => Some(id.0 as u64),
                        None => None,
                    },
                )
                + ", flags: "@
                + decimal(value.flags as nat)
        },
        Definition::Parameter { defn, value } => {
            "visit_parameter: defn: "@
                + decimal(defn.0 as nat)
                + ", name: "@
                + decimal(value.name.0 as nat)
                + ", parameter_type: "@
                + decimal(value.parameter_type as nat)
        },
        Definition::RmaWin { defn, value } => {
            "visit_rma_win: defn: "@
                + decimal(defn.0 as nat)
                + ", name: "@
                + decimal(value.name.0 as nat)
                + ", comm: "@
                + decimal(value.comm.0 as nat)
        },
        Definition::CartDimension { defn, value } => {
            "visit_cart_dimension: defn: "@
                + decimal(defn.0 as nat)
                + ", name: "@
                + decimal(value.name.0 as nat)
                + ", size: "@
                + decimal(value.size as nat)
                + ", periodic: "@
                + decimal(value.periodic as nat)
        },
        Definition::CartTopology { defn, value } => {
            "visit_cart_topology: defn: "@
                + decimal(defn.0 as nat)
                + ", name: "@
                + decimal(value.name.0 as nat)
                + ", communicator: "@
                + decimal(value.communicator.0 as nat)
                + ", dimensions: "@
                + decimal(value.dimensions@.len())
                + " items"@
        },
        Definition::CartCoordinate { defn: _, value } => {
            "visit_cart_coordinate: topology: "@
                + decimal(value.topology.0 as nat)
                + ", rank: "@
                + decimal(value.rank as nat)
                + ", coordinates: "@
                + decimal(value.coordinates@.len())
                + " items"@
        },
        Definition::InterruptGenerator { defn, value } => {
            "visit_interrupt_generator: defn: "@
                + decimal(defn.0 as nat)
                + ", name: "@
                + decimal(value.name.0 as nat)
                + ", interrupt_generator_mode: "@
                + decimal(value.interrupt_generator_mode as nat)
                + ", base: "@
                + decimal(value.base as nat)
                + ", exponent: "@
                + signed_decimal(value.exponent as int)
                + ", period: "@
                + decimal(value.period as nat)
        },
        Definition::IoFileProperty { defn: _, value } => {
            "visit_io_file_property: io_file: "@
                + decimal(value.io_file.0 as nat)
                + ", name: "@
                + decimal(value.name.0 as nat)
                + ", type: "@
                + decimal(value.value.spec_kind().spec_number() as nat)
                + ", value: <attr_value>"@
        },
        Definition::IoRegularFile { defn, value } => {
            "visit_io_regular_file: defn: "@
                + decimal(defn.0 as nat)
                + ", name: "@
                + decimal(value.name.0 as nat)
                + ", scope: "@
                + decimal(value.scope.0 as nat)
        },
        Definition::IoDirectory { defn, value } => {
            "visit_io_directory: defn: "@
                + decimal(defn.0 as nat)
                + ", name: "@
                + decimal(value.name.0 as nat)
                + ", scope: "@
                + decimal(value.scope.0 as nat)
        },
        Definition::IoHandle { defn, value } => {
            "visit_io_handle: defn: "@
                + decimal(defn.0 as nat)
                + ", name: "@
                + decimal(value.name.0 as nat)
                + ", file: "@
                + decimal(value.file.0 as nat)
                + ", io_paradigm: "@
                + decimal(value.io_paradigm.0 as nat)
                + ", io_handle_flags: "@
                + decimal(value.io_handle_flags as nat)
                + ", comm: "@
                + optional_text(
                    match value.comm {
                        Some(id) => Some(id.0 as u64),
                        None => None,
                    },
                )
                + ", parent: "@
                + optional_text(
                    match value.parent {
                        Some(id) => Some(id.0 as u64),
                        None => None,
                    },
                )
        },
        Definition::IoPreCreatedHandleState { defn: _, value } => {
            "visit_io_pre_created_handle_state: io_handle: "@
                + decimal(value.io_handle.0 as nat)
                + ", mode: "@
                + decimal(value.mode as nat)
                + ", status_flags: "@
                + decimal(value.status_flags as nat)
        },
    }
}

impl Definition {
    /// The line that describes this definition.
    pub fn text(&self) -> (text: String)
        ensures
            text@ == definition_text(*self),
    {
        match self {
            Definition::Unknown => "visit_unknown".to_owned(),
            Definition::String { defn, value } => {
                let mut text = "visit_string: defn: ".to_owned();
                push_decimal(&mut text, defn.0 as u64);
                push_str(&mut text, ", value: ");
                push_str(&mut text, value.as_str());
                text
            },
            Definition::Attribute { defn, value } => {
                let mut text = "visit_attribute: defn: ".to_owned();
                push_decimal(&mut text, defn.0 as u64);
                push_str(&mut text, ", name: ");
                push_decimal(&mut text, value.name.0 as u64);
                push_str(&mut text, ", description: ");
                push_decimal(&mut text, value.description.0 as u64);
                push_str(&mut text, ", type: ");
                push_decimal(&mut text, value.kind.0 as u64);
                text
            },
            Definition::ClockProperties { value } => {
                let mut text = "visit_clock_properties: timer_resolution: ".to_owned();
                push_decimal(&mut text, value.timer_resolution as u64);
                push_str(&mut text, ", global_offset: ");
                push_decimal(&mut text, value.global_offset as u64);
                push_str(&mut text, ", trace_length: ");
                push_decimal(&mut text, value.trace_length as u64);
                push_str(&mut text, ", realtime_timestamp: ");
                push_decimal(&mut text, value.realtime_timestamp as u64);
                text
            },
            Definition::Paradigm { defn: _, value } => {
                let mut text = "visit_paradigm: paradigm: ".to_owned();
                push_decimal(&mut text, value.paradigm as u64);
                push_str(&mut text, ", name: ");
                push_decimal(&mut text, value.name.0 as u64);
                push_str(&mut text, ", paradigm_class: ");
                push_decimal(&mut text, value.paradigm_class as u64);
                text
            },
            Definition::ParadigmProperty { defn: _, value } => {
                let mut text = "visit_paradigm_property: paradigm: ".to_owned();
                push_decimal(&mut text, value.paradigm as u64);
                push_str(&mut text, ", property: ");
                push_decimal(&mut text, value.property as u64);
                push_str(&mut text, ", type: ");
                push_decimal(&mut text, value.value.kind().number() as u64);
                push_str(&mut text, ", value: <attr_value>");
                text
            },
            Definition::IoParadigm { defn, value } => {
                let mut text = "visit_io_paradigm: defn: ".to_owned();
                push_decimal(&mut text, defn.0 as u64);
                push_str(&mut text, ", identification: ");
                push_decimal(&mut text, value.identification.0 as u64);
                push_str(&mut text, ", name: ");
                push_decimal(&mut text, value.name.0 as u64);
                push_str(&mut text, ", io_paradigm_class: ");
                push_decimal(&mut text, value.io_paradigm_class as u64);
                push_str(&mut text, ", io_paradigm_flags: ");
                push_decimal(&mut text, value.io_paradigm_flags as u64);
                push_str(&mut text, ", properties: ");
                push_decimal(&mut text, value.properties.len() as u64);
                push_str(&mut text, " items");
                text
            },
            Definition::SystemTreeNode { defn, value } => {
                let mut text = "visit_system_tree_node: defn: ".to_owned();
                push_decimal(&mut text, defn.0 as u64);
                push_str(&mut text, ", name: ");
                push_decimal(&mut text, value.name.0 as u64);
                push_str(&mut text, ", class_name: ");
                push_decimal(&mut text, value.class_name.0 as u64);
                push_str(&mut text, ", parent: ");
                push_optional(
                    &mut text,
                    match value.parent {
                        Some(id) => Some(id.0 as u64),
                        None => None,
                    },
                );
                text
            },
            Definition::SystemTreeNodeProperty { defn: _, value } => {
                let mut text = "visit_system_tree_node_property: system_tree_node: ".to_owned();
                push_decimal(&mut text, value.system_tree_node.0 as u64);
                push_str(&mut text, ", name: ");
                push_decimal(&mut text, value.name.0 as u64);
                push_str(&mut text, ", type: ");
                push_decimal(&mut text, value.value.kind().number() as u64);
                push_str(&mut text, ", value: <attr_value>");
                text
            },
            Definition::SystemTreeNodeDomain { defn: _, value } => {
                let mut text = "visit_system_tree_node_domain: system_tree_node: ".to_owned();
                push_decimal(&mut text, value.system_tree_node.0 as u64);
                push_str(&mut text, ", system_tree_domain: ");
                push_decimal(&mut text, value.system_tree_domain as u64);
                text
            },
            Definition::LocationGroup { defn, value } => {
                let mut text = "visit_location_group: defn: ".to_owned();
                push_decimal(&mut text, defn.0 as u64);
                push_str(&mut text, ", name: ");
                push_decimal(&mut text, value.name.0 as u64);
                push_str(&mut text, ", location_group_type: ");
                push_decimal(&mut text, value.location_group_type as u64);
                push_str(&mut text, ", system_tree_parent: ");
                push_decimal(&mut text, value.system_tree_parent.0 as u64);
                push_str(&mut text, ", creating_location_group: ");
                push_optional(
                    &mut text,
                    match value.creating_location_group {
                        Some(id) => Some(id.0 as u64),
                        None => None,
                    },
                );
                text
            },
            Definition::Location { defn, value } => {
                let mut text = "visit_location: defn: ".to_owned();
                push_decimal(&mut text, defn.0 as u64);
                push_str(&mut text, ", name: ");
                push_decimal(&mut text, value.name.0 as u64);
                push_str(&mut text, ", location_type: ");
                push_decimal(&mut text, value.location_type as u64);
                push_str(&mut text, ", num_events: ");
                push_decimal(&mut text, value.num_events as u64);
                push_str(&mut text, ", location_group: ");
                push_decimal(&mut text, value.location_group.0 as u64);
                text
            },
            Definition::LocationGroupProperty { defn: _, value } => {
                let mut text = "visit_location_group_property: location_group: ".to_owned();
                push_decimal(&mut text, value.location_group.0 as u64);
                push_str(&mut text, ", name: ");
                push_decimal(&mut text, value.name.0 as u64);
                push_str(&mut text, ", type: ");
                push_decimal(&mut text, value.value.kind().number() as u64);
                push_str(&mut text, ", value: <attr_value>");
                text
            },
            Definition::LocationProperty { defn: _, value } => {
                let mut text = "visit_location_property: location: ".to_owned();
                push_decimal(&mut text, value.location.0 as u64);
                push_str(&mut text, ", name: ");
                push_decimal(&mut text, value.name.0 as u64);
                push_str(&mut text, ", type: ");
                push_decimal(&mut text, value.value.kind().number() as u64);
                push_str(&mut text, ", value: <attr_value>");
                text
            },
            Definition::Region { defn, value } => {
                let mut text = "visit_region: defn: ".to_owned();
                push_decimal(&mut text, defn.0 as u64);
                push_str(&mut text, ", name: ");
                push_decimal(&mut text, value.name.0 as u64);
                push_str(&mut text, ", canonical_name: ");
                push_decimal(&mut text, value.canonical_name.0 as u64);
                push_str(&mut text, ", description: ");
                push_decimal(&mut text, value.description.0 as u64);
                push_str(&mut text, ", region_role: ");
                push_decimal(&mut text, value.region_role as u64);
                push_str(&mut text, ", paradigm: ");
                push_decimal(&mut text, value.paradigm as u64);
                push_str(&mut text, ", region_flags: ");
                push_decimal(&mut text, value.region_flags as u64);
                push_str(&mut text, ", source_file: ");
                push_decimal(&mut text, value.source_file.0 as u64);
                push_str(&mut text, ", begin_line_number: ");
                push_decimal(&mut text, value.begin_line_number as u64);
                push_str(&mut text, ", end_line_number: ");
                push_decimal(&mut text, value.end_line_number as u64);
                text
            },
            Definition::Callsite { defn, value } => {
                let mut text = "visit_callsite: defn: ".to_owned();
                push_decimal(&mut text, defn.0 as u64);
                push_str(&mut text, ", source_file: ");
                push_decimal(&mut text, value.source_file.0 as u64);
                push_str(&mut text, ", line_number: ");
                push_decimal(&mut text, value.line_number as u64);
                push_str(&mut text, ", entered_region: ");
                push_decimal(&mut text, value.entered_region.0 as u64);
                push_str(&mut text, ", left_region: ");
                push_decimal(&mut text, value.left_region.0 as u64);
                text
            },
            Definition::Callpath { defn, value } => {
                let mut text = "visit_callpath: defn: ".to_owned();
                push_decimal(&mut text, defn.0 as u64);
                push_str(&mut text, ", parent: ");
                push_optional(
                    &mut text,
                    match value.parent {
                        Some(id) => Some(id.0 as u64),
                        None => None,
                    },
                );
                push_str(&mut text, ", region: ");
                push_decimal(&mut text, value.region.0 as u64);
                text
            },
            Definition::CallpathParameter { defn: _, value } => {
                let mut text = "visit_callpath_parameter: callpath: ".to_owned();
                push_decimal(&mut text, value.callpath.0 as u64);
                push_str(&mut text, ", parameter: ");
                push_decimal(&mut text, value.parameter.0 as u64);
                push_str(&mut text, ", type: ");
                push_decimal(&mut text, value.value.kind().number() as u64);
                push_str(&mut text, ", value: <attr_value>");
                text
            },
            Definition::SourceCodeLocation { defn, value } => {
                let mut text = "visit_source_code_location: defn: ".to_owned();
                push_decimal(&mut text, defn.0 as u64);
                push_str(&mut text, ", file: ");
                push_decimal(&mut text, value.file.0 as u64);
                push_str(&mut text, ", line_number: ");
                push_decimal(&mut text, value.line_number as u64);
                text
            },
            Definition::CallingContext { defn, value } => {
                let mut text = "visit_calling_context: defn: ".to_owned();
                push_decimal(&mut text, defn.0 as u64);
                push_str(&mut text, ", region: ");
                push_decimal(&mut text, value.region.0 as u64);
                push_str(&mut text, ", source_code_location: ");
                push_decimal(&mut text, value.source_code_location.0 as u64);
                push_str(&mut text, ", parent: ");
                push_optional(
                    &mut text,
                    match value.parent {
                        Some(id) => Some(id.0 as u64),
                        None => None,
                    },
                );
                text
            },
            Definition::CallingContextProperty { defn: _, value } => {
                let mut text = "visit_calling_context_property: calling_context: ".to_owned();
                push_decimal(&mut text, value.calling_context.0 as u64);
                push_str(&mut text, ", name: ");
                push_decimal(&mut text, value.name.0 as u64);
                push_str(&mut text, ", type: ");
                push_decimal(&mut text, value.value.kind().number() as u64);
                push_str(&mut text, ", value: <attr_value>");
                text
            },
            Definition::Group { defn, value } => {
                let mut text = "visit_group: defn: ".to_owned();
                push_decimal(&mut text, defn.0 as u64);
                push_str(&mut text, ", name: ");
                push_decimal(&mut text, value.name.0 as u64);
                push_str(&mut text, ", group_type: ");
                push_decimal(&mut text, value.group_type as u64);
                push_str(&mut text, ", paradigm: ");
                push_decimal(&mut text, value.paradigm as u64);
                push_str(&mut text, ", group_flags: ");
                push_decimal(&mut text, value.group_flags as u64);
                push_str(&mut text, ", members: ");
                push_decimal(&mut text, value.members.len() as u64);
                push_str(&mut text, " items");
                text
            },
            Definition::MetricMember { defn, value } => {
                let mut text = "visit_metric_member: defn: ".to_owned();
                push_decimal(&mut text, defn.0 as u64);
                push_str(&mut text, ", name: ");
                push_decimal(&mut text, value.name.0 as u64);
                push_str(&mut text, ", description: ");
                push_decimal(&mut text, value.description.0 as u64);
                push_str(&mut text, ", metric_type: ");
                push_decimal(&mut text, value.metric_type as u64);
                push_str(&mut text, ", metric_mode: ");
                push_decimal(&mut text, value.metric_mode as u64);
                push_str(&mut text, ", value_type: ");
                push_decimal(&mut text, value.value_type.0 as u64);
                push_str(&mut text, ", base: ");
                push_decimal(&mut text, value.base as u64);
                push_str(&mut text, ", exponent: ");
                push_signed_decimal(&mut text, value.exponent);
                push_str(&mut text, ", unit: ");
                push_decimal(&mut text, value.unit.0 as u64);
                text
            },
            Definition::MetricClass { defn, value } => {
                let mut text = "visit_metric_class: defn: ".to_owned();
                push_decimal(&mut text, defn.0 as u64);
                push_str(&mut text, ", metric_members: ");
                push_decimal(&mut text, value.metric_members.len() as u64);
                push_str(&mut text, " items, metric_occurrence: ");
                push_decimal(&mut text, value.metric_occurrence as u64);
                push_str(&mut text, ", recorder_kind: ");
                push_decimal(&mut text, value.recorder_kind as u64);
                text
            },
            Definition::MetricInstance { defn, value } => {
                let mut text = "visit_metric_instance: defn: ".to_owned();
                push_decimal(&mut text, defn.0 as u64);
                push_str(&mut text, ", metric_class: ");
                push_decimal(&mut text, value.metric_class.0 as u64);
                push_str(&mut text, ", recorder: ");
                push_decimal(&mut text, value.recorder.0 as u64);
                push_str(&mut text, ", metric_scope: ");
                push_decimal(&mut text, value.metric_scope as u64);
                push_str(&mut text, ", scope: ");
                push_decimal(&mut text, value.scope as u64);
                text
            },
            Definition::MetricClassRecorder { defn: _, value } => {
                let mut text = "visit_metric_class_recorder: metric_class: ".to_owned();
                push_decimal(&mut text, value.metric_class.0 as u64);
                push_str(&mut text, ", recorder: ");
                push_decimal(&mut text, value.recorder.0 as u64);
                text
            },
            Definition::Comm { defn, value } => {
                let mut text = "visit_comm: defn: ".to_owned();
                push_decimal(&mut text, defn.0 as u64);
                push_str(&mut text, ", name: ");
                push_decimal(&mut text, value.name.0 as u64);
                push_str(&mut text, ", group: ");
                push_decimal(&mut text, value.group.0 as u64);
                push_str(&mut text, ", parent: ");
                push_optional(
                    &mut text,
                    match value.parent {
                        Some(id) => Some(id.0 as u64),
                        None => None,
                    },
                );
                text
            },
            Definition::InterComm { defn, value } => {
                let mut text = "visit_inter_comm: defn: ".to_owned();
                push_decimal(&mut text, defn.0 as u64);
                push_str(&mut text, ", name: ");
                push_decimal(&mut text, value.name.0 as u64);
                push_str(&mut text, ", group_a: ");
                push_decimal(&mut text, value.group_a.0 as u64);
                push_str(&mut text, ", group_b: ");
                push_decimal(&mut text, value.group_b.0 as u64);
                push_str(&mut text, ", common_communicator: ");
                push_optional(
                    &mut text,
                    match value.common_communicator {
                        Some(id) => Some(id.0 as u64),
                        None => None,
                    },
                );
                push_str(&mut text, ", flags: ");
                push_decimal(&mut text, value.flags as u64);
                text
            },
            Definition::Parameter { defn, value } => {
                let mut text = "visit_parameter: defn: ".to_owned();
                push_decimal(&mut text, defn.0 as u64);
                push_str(&mut text, ", name: ");
                push_decimal(&mut text, value.name.0 as u64);
                push_str(&mut text, ", parameter_type: ");
                push_decimal(&mut text, value.parameter_type as u64);
                text
            },
            Definition::RmaWin { defn, value } => {
                let mut text = "visit_rma_win: defn: ".to_owned();
                push_decimal(&mut text, defn.0 as u64);
                push_str(&mut text, ", name: ");
                push_decimal(&mut text, value.name.0 as u64);
                push_str(&mut text, ", comm: ");
                push_decimal(&mut text, value.comm.0 as u64);
                text
            },
            Definition::CartDimension { defn, value } => {
                let mut text = "visit_cart_dimension: defn: ".to_owned();
                push_decimal(&mut text, defn.0 as u64);
                push_str(&mut text, ", name: ");
                push_decimal(&mut text, value.name.0 as u64);
                push_str(&mut text, ", size: ");
                push_decimal(&mut text, value.size as u64);
                push_str(&mut text, ", periodic: ");
                push_decimal(&mut text, value.periodic as u64);
                text
            },
            Definition::CartTopology { defn, value } => {
                let mut text = "visit_cart_topology: defn: ".to_owned();
                push_decimal(&mut text, defn.0 as u64);
                push_str(&mut text, ", name: ");
                push_decimal(&mut text, value.name.0 as u64);
                push_str(&mut text, ", communicator: ");
                push_decimal(&mut text, value.communicator.0 as u64);
                push_str(&mut text, ", dimensions: ");
                push_decimal(&mut text, value.dimensions.len() as u64);
                push_str(&mut text, " items");
                text
            },
            Definition::CartCoordinate { defn: _, value } => {
                let mut text = "visit_cart_coordinate: topology: ".to_owned();
                push_decimal(&mut text, value.topology.0 as u64);
                push_str(&mut text, ", rank: ");
                push_decimal(&mut text, value.rank as u64);
                push_str(&mut text, ", coordinates: ");
                push_decimal(&mut text, value.coordinates.len() as u64);
                push_str(&mut text, " items");
                text
            },
            Definition::InterruptGenerator { defn, value } => {
                let mut text = "visit_interrupt_generator: defn: ".to_owned();
                push_decimal(&mut text, defn.0 as u64);
                push_str(&mut text, ", name: ");
                push_decimal(&mut text, value.name.0 as u64);
                push_str(&mut text, ", interrupt_generator_mode: ");
                push_decimal(&mut text, value.interrupt_generator_mode as u64);
                push_str(&mut text, ", base: ");
                push_decimal(&mut text, value.base as u64);
                push_str(&mut text, ", exponent: ");
                push_signed_decimal(&mut text, value.exponent);
                push_str(&mut text, ", period: ");
                push_decimal(&mut text, value.period as u64);
                text
            },
            Definition::IoFileProperty { defn: _, value } => {
                let mut text = "visit_io_file_property: io_file: ".to_owned();
                push_decimal(&mut text, value.io_file.0 as u64);
                push_str(&mut text, ", name: ");
                push_decimal(&mut text, value.name.0 as u64);
                push_str(&mut text, ", type: ");
                push_decimal(&mut text, value.value.kind().number() as u64);
                push_str(&mut text, ", value: <attr_value>");
                text
            },
            Definition::IoRegularFile { defn, value } => {
                let mut text = "visit_io_regular_file: defn: ".to_owned();
                push_decimal(&mut text, defn.0 as u64);
                push_str(&mut text, ", name: ");
                push_decimal(&mut text, value.name.0 as u64);
                push_str(&mut text, ", scope: ");
                push_decimal(&mut text, value.scope.0 as u64);
                text
            },
            Definition::IoDirectory { defn, value } => {
                let mut text = "visit_io_directory: defn: ".to_owned();
                push_decimal(&mut text, defn.0 as u64);
                push_str(&mut text, ", name: ");
                push_decimal(&mut text, value.name.0 as u64);
                push_str(&mut text, ", scope: ");
                push_decimal(&mut text, value.scope.0 as u64);
                text
            },
            Definition::IoHandle { defn, value } => {
                let mut text = "visit_io_handle: defn: ".to_owned();
                push_decimal(&mut text, defn.0 as u64);
                push_str(&mut text, ", name: ");
                push_decimal(&mut text, value.name.0 as u64);
                push_str(&mut text, ", file: ");
                push_decimal(&mut text, value.file.0 as u64);
                push_str(&mut text, ", io_paradigm: ");
                push_decimal(&mut text, value.io_paradigm.0 as u64);
                push_str(&mut text, ", io_handle_flags: ");
                push_decimal(&mut text, value.io_handle_flags as u64);
                push_str(&mut text, ", comm: ");
                push_optional(
                    &mut text,
                    match value.comm {
                        Some(id) => Some(id.0 as u64),
                        None => None,
                    },
                );
                push_str(&mut text, ", parent: ");
                push_optional(
                    &mut text,
                    match value.parent {
                        Some(id) => Some(id.0 as u64),
                        None => None,
                    },
                );
                text
            },
            Definition::IoPreCreatedHandleState { defn: _, value } => {
                let mut text = "visit_io_pre_created_handle_state: io_handle: ".to_owned();
                push_decimal(&mut text, value.io_handle.0 as u64);
                push_str(&mut text, ", mode: ");
                push_decimal(&mut text, value.mode as u64);
                push_str(&mut text, ", status_flags: ");
                push_decimal(&mut text, value.status_flags as u64);
                text
            },
        }
    }
}

} // verus!
