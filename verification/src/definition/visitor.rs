//! Consumers of definitions: one method for each kind of record, and the row
//! of consumers that acts as one.
use vstd::prelude::*;
use crate::definition::defs::AttributeDef;
use crate::definition::defs::CallingContextDef;
use crate::definition::defs::CallingContextPropertyDef;
use crate::definition::defs::CallpathDef;
use crate::definition::defs::CallpathParameterDef;
use crate::definition::defs::CallsiteDef;
use crate::definition::defs::CartCoordinateDef;
use crate::definition::defs::CartDimensionDef;
use crate::definition::defs::CartTopologyDef;
use crate::definition::defs::ClockPropertiesDef;
use crate::definition::defs::CommDef;
use crate::definition::defs::Definition;
use crate::definition::defs::DefinitionKind;
use crate::definition::defs::GroupDef;
use crate::definition::defs::InterCommDef;
use crate::definition::defs::InterruptGeneratorDef;
use crate::definition::defs::IoDirectoryDef;
use crate::definition::defs::IoFilePropertyDef;
use crate::definition::defs::IoHandleDef;
use crate::definition::defs::IoParadigmDef;
use crate::definition::defs::IoPreCreatedHandleStateDef;
use crate::definition::defs::IoRegularFileDef;
use crate::definition::defs::LocationDef;
use crate::definition::defs::LocationGroupDef;
use crate::definition::defs::LocationGroupPropertyDef;
use crate::definition::defs::LocationPropertyDef;
use crate::definition::defs::MetricClassDef;
use crate::definition::defs::MetricClassRecorderDef;
use crate::definition::defs::MetricInstanceDef;
use crate::definition::defs::MetricMemberDef;
use crate::definition::defs::ParadigmDef;
use crate::definition::defs::ParadigmPropertyDef;
use crate::definition::defs::ParameterDef;
use crate::definition::defs::RegionDef;
use crate::definition::defs::RmaWinDef;
use crate::definition::defs::SourceCodeLocationDef;
use crate::definition::defs::SystemTreeNodeDef;
use crate::definition::defs::SystemTreeNodeDomainDef;
use crate::definition::defs::SystemTreeNodePropertyDef;
use crate::native::AttributeRef;
use crate::native::CallbackCode;
use crate::native::CallingContextRef;
use crate::native::CallpathRef;
use crate::native::CallsiteRef;
use crate::native::CartDimensionRef;
use crate::native::CartTopologyRef;
use crate::native::CommRef;
use crate::native::GroupRef;
use crate::native::InterruptGeneratorRef;
use crate::native::IoFileRef;
use crate::native::IoHandleRef;
use crate::native::IoParadigmRef;
use crate::native::LocationGroupRef;
use crate::native::LocationRef;
use crate::native::MetricMemberRef;
use crate::native::MetricRef;
use crate::native::Paradigm;
use crate::native::ParameterRef;
use crate::native::RegionRef;
use crate::native::RmaWinRef;
use crate::native::SourceCodeLocationRef;
use crate::native::StringRef;
use crate::native::SystemTreeNodeRef;
use crate::visitor::before_stop;
use crate::visitor::ends_at;
use crate::visitor::Multiplexer;
use crate::visitor::Visit;

verus! {

/// A consumer of definitions with one method for each kind of record. Every
/// method goes on without doing anything unless the consumer overrides it.
/// `route_definition` finds the method for a record.
pub trait DefinitionVisitor: Visit<Definition> {
    /// Whether consumers of this type handle records of `kind`. The method
    /// of a kind that is not handled does nothing and goes on; of the method
    /// of a kind that is handled nothing is known here but what the consumer
    /// says of it. A consumer that does not say which kinds it handles may
    /// handle any.
    open spec fn handles(kind: DefinitionKind) -> bool {
        true
    }

    fn visit_unknown(&mut self) -> (code: CallbackCode)
        ensures
            !Self::handles(DefinitionKind::Unknown) ==> {
                &&& code == CallbackCode::Success
                &&& *final(self) == *old(self)
            },
    {
        CallbackCode::Success
    }

    fn visit_string(&mut self, defn: StringRef, value: &str) -> (code: CallbackCode)
        ensures
            !Self::handles(DefinitionKind::String) ==> {
                &&& code == CallbackCode::Success
                &&& *final(self) == *old(self)
            },
    {
        CallbackCode::Success
    }

    fn visit_attribute(
        &mut self,
        defn: AttributeRef,
        value: &AttributeDef,
    ) -> (code: CallbackCode)
        ensures
            !Self::handles(DefinitionKind::Attribute) ==> {
                &&& code == CallbackCode::Success
                &&& *final(self) == *old(self)
            },
    {
        CallbackCode::Success
    }

    fn visit_clock_properties(
        &mut self,
        value: &ClockPropertiesDef,
    ) -> (code: CallbackCode)
        ensures
            !Self::handles(DefinitionKind::ClockProperties) ==> {
                &&& code == CallbackCode::Success
                &&& *final(self) == *old(self)
            },
    {
        CallbackCode::Success
    }

    fn visit_paradigm(
        &mut self,
        defn: Paradigm,
        value: &ParadigmDef,
    ) -> (code: CallbackCode)
        ensures
            !Self::handles(DefinitionKind::Paradigm) ==> {
                &&& code == CallbackCode::Success
                &&& *final(self) == *old(self)
            },
    {
        CallbackCode::Success
    }

    fn visit_paradigm_property(
        &mut self,
        defn: Paradigm,
        value: &ParadigmPropertyDef,
    ) -> (code: CallbackCode)
        ensures
            !Self::handles(DefinitionKind::ParadigmProperty) ==> {
                &&& code == CallbackCode::Success
                &&& *final(self) == *old(self)
            },
    {
        CallbackCode::Success
    }

    fn visit_io_paradigm(
        &mut self,
        defn: IoParadigmRef,
        value: &IoParadigmDef,
    ) -> (code: CallbackCode)
        ensures
            !Self::handles(DefinitionKind::IoParadigm) ==> {
                &&& code == CallbackCode::Success
                &&& *final(self) == *old(self)
            },
    {
        CallbackCode::Success
    }

    fn visit_system_tree_node(
        &mut self,
        defn: SystemTreeNodeRef,
        value: &SystemTreeNodeDef,
    ) -> (code: CallbackCode)
        ensures
            !Self::handles(DefinitionKind::SystemTreeNode) ==> {
                &&& code == CallbackCode::Success
                &&& *final(self) == *old(self)
            },
    {
        CallbackCode::Success
    }

    fn visit_system_tree_node_property(
        &mut self,
        defn: SystemTreeNodeRef,
        value: &SystemTreeNodePropertyDef,
    ) -> (code: CallbackCode)
        ensures
            !Self::handles(DefinitionKind::SystemTreeNodeProperty) ==> {
                &&& code == CallbackCode::Success
                &&& *final(self) == *old(self)
            },
    {
        CallbackCode::Success
    }

    fn visit_system_tree_node_domain(
        &mut self,
        defn: SystemTreeNodeRef,
        value: &SystemTreeNodeDomainDef,
    ) -> (code: CallbackCode)
        ensures
            !Self::handles(DefinitionKind::SystemTreeNodeDomain) ==> {
                &&& code == CallbackCode::Success
                &&& *final(self) == *old(self)
            },
    {
        CallbackCode::Success
    }

    fn visit_location(
        &mut self,
        defn: LocationRef,
        value: &LocationDef,
    ) -> (code: CallbackCode)
        ensures
            !Self::handles(DefinitionKind::Location) ==> {
                &&& code == CallbackCode::Success
                &&& *final(self) == *old(self)
            },
    {
        CallbackCode::Success
    }

    fn visit_location_group(
        &mut self,
        defn: LocationGroupRef,
        value: &LocationGroupDef,
    ) -> (code: CallbackCode)
        ensures
            !Self::handles(DefinitionKind::LocationGroup) ==> {
                &&& code == CallbackCode::Success
                &&& *final(self) == *old(self)
            },
    {
        CallbackCode::Success
    }

    fn visit_location_group_property(
        &mut self,
        defn: LocationGroupRef,
        value: &LocationGroupPropertyDef,
    ) -> (code: CallbackCode)
        ensures
            !Self::handles(DefinitionKind::LocationGroupProperty) ==> {
                &&& code == CallbackCode::Success
                &&& *final(self) == *old(self)
            },
    {
        CallbackCode::Success
    }

    fn visit_location_property(
        &mut self,
        defn: LocationRef,
        value: &LocationPropertyDef,
    ) -> (code: CallbackCode)
        ensures
            !Self::handles(DefinitionKind::LocationProperty) ==> {
                &&& code == CallbackCode::Success
                &&& *final(self) == *old(self)
            },
    {
        CallbackCode::Success
    }

    fn visit_region(
        &mut self,
        defn: RegionRef,
        value: &RegionDef,
    ) -> (code: CallbackCode)
        ensures
            !Self::handles(DefinitionKind::Region) ==> {
                &&& code == CallbackCode::Success
                &&& *final(self) == *old(self)
            },
    {
        CallbackCode::Success
    }

    fn visit_callsite(
        &mut self,
        defn: CallsiteRef,
        value: &CallsiteDef,
    ) -> (code: CallbackCode)
        ensures
            !Self::handles(DefinitionKind::Callsite) ==> {
                &&& code == CallbackCode::Success
                &&& *final(self) == *old(self)
            },
    {
        CallbackCode::Success
    }

    fn visit_callpath(
        &mut self,
        defn: CallpathRef,
        value: &CallpathDef,
    ) -> (code: CallbackCode)
        ensures
            !Self::handles(DefinitionKind::Callpath) ==> {
                &&& code == CallbackCode::Success
                &&& *final(self) == *old(self)
            },
    {
        CallbackCode::Success
    }

    fn visit_callpath_parameter(
        &mut self,
        defn: CallpathRef,
        value: &CallpathParameterDef,
    ) -> (code: CallbackCode)
        ensures
            !Self::handles(DefinitionKind::CallpathParameter) ==> {
                &&& code == CallbackCode::Success
                &&& *final(self) == *old(self)
            },
    {
        CallbackCode::Success
    }

    fn visit_source_code_location(
        &mut self,
        defn: SourceCodeLocationRef,
        value: &SourceCodeLocationDef,
    ) -> (code: CallbackCode)
        ensures
            !Self::handles(DefinitionKind::SourceCodeLocation) ==> {
                &&& code == CallbackCode::Success
                &&& *final(self) == *old(self)
            },
    {
        CallbackCode::Success
    }

    fn visit_calling_context(
        &mut self,
        defn: CallingContextRef,
        value: &CallingContextDef,
    ) -> (code: CallbackCode)
        ensures
            !Self::handles(DefinitionKind::CallingContext) ==> {
                &&& code == CallbackCode::Success
                &&& *final(self) == *old(self)
            },
    {
        CallbackCode::Success
    }

    fn visit_calling_context_property(
        &mut self,
        defn: CallingContextRef,
        value: &CallingContextPropertyDef,
    ) -> (code: CallbackCode)
        ensures
            !Self::handles(DefinitionKind::CallingContextProperty) ==> {
                &&& code == CallbackCode::Success
                &&& *final(self) == *old(self)
            },
    {
        CallbackCode::Success
    }

    fn visit_group(&mut self, defn: GroupRef, value: &GroupDef) -> (code: CallbackCode)
        ensures
            !Self::handles(DefinitionKind::Group) ==> {
                &&& code == CallbackCode::Success
                &&& *final(self) == *old(self)
            },
    {
        CallbackCode::Success
    }

    fn visit_metric_member(
        &mut self,
        defn: MetricMemberRef,
        value: &MetricMemberDef,
    ) -> (code: CallbackCode)
        ensures
            !Self::handles(DefinitionKind::MetricMember) ==> {
                &&& code == CallbackCode::Success
                &&& *final(self) == *old(self)
            },
    {
        CallbackCode::Success
    }

    fn visit_metric_class(
        &mut self,
        defn: MetricRef,
        value: &MetricClassDef,
    ) -> (code: CallbackCode)
        ensures
            !Self::handles(DefinitionKind::MetricClass) ==> {
                &&& code == CallbackCode::Success
                &&& *final(self) == *old(self)
            },
    {
        CallbackCode::Success
    }

    fn visit_metric_instance(
        &mut self,
        defn: MetricRef,
        value: &MetricInstanceDef,
    ) -> (code: CallbackCode)
        ensures
            !Self::handles(DefinitionKind::MetricInstance) ==> {
                &&& code == CallbackCode::Success
                &&& *final(self) == *old(self)
            },
    {
        CallbackCode::Success
    }

    fn visit_metric_class_recorder(
        &mut self,
        defn: MetricRef,
        value: &MetricClassRecorderDef,
    ) -> (code: CallbackCode)
        ensures
            !Self::handles(DefinitionKind::MetricClassRecorder) ==> {
                &&& code == CallbackCode::Success
                &&& *final(self) == *old(self)
            },
    {
        CallbackCode::Success
    }

    fn visit_comm(&mut self, defn: CommRef, value: &CommDef) -> (code: CallbackCode)
        ensures
            !Self::handles(DefinitionKind::Comm) ==> {
                &&& code == CallbackCode::Success
                &&& *final(self) == *old(self)
            },
    {
        CallbackCode::Success
    }

    fn visit_inter_comm(
        &mut self,
        defn: CommRef,
        value: &InterCommDef,
    ) -> (code: CallbackCode)
        ensures
            !Self::handles(DefinitionKind::InterComm) ==> {
                &&& code == CallbackCode::Success
                &&& *final(self) == *old(self)
            },
    {
        CallbackCode::Success
    }

    fn visit_parameter(
        &mut self,
        defn: ParameterRef,
        value: &ParameterDef,
    ) -> (code: CallbackCode)
        ensures
            !Self::handles(DefinitionKind::Parameter) ==> {
                &&& code == CallbackCode::Success
                &&& *final(self) == *old(self)
            },
    {
        CallbackCode::Success
    }

    fn visit_rma_win(
        &mut self,
        defn: RmaWinRef,
        value: &RmaWinDef,
    ) -> (code: CallbackCode)
        ensures
            !Self::handles(DefinitionKind::RmaWin) ==> {
                &&& code == CallbackCode::Success
                &&& *final(self) == *old(self)
            },
    {
        CallbackCode::Success
    }

    fn visit_cart_dimension(
        &mut self,
        defn: CartDimensionRef,
        value: &CartDimensionDef,
    ) -> (code: CallbackCode)
        ensures
            !Self::handles(DefinitionKind::CartDimension) ==> {
                &&& code == CallbackCode::Success
                &&& *final(self) == *old(self)
            },
    {
        CallbackCode::Success
    }

    fn visit_cart_topology(
        &mut self,
        defn: CartTopologyRef,
        value: &CartTopologyDef,
    ) -> (code: CallbackCode)
        ensures
            !Self::handles(DefinitionKind::CartTopology) ==> {
                &&& code == CallbackCode::Success
                &&& *final(self) == *old(self)
            },
    {
        CallbackCode::Success
    }

    fn visit_cart_coordinate(
        &mut self,
        defn: CartTopologyRef,
        value: &CartCoordinateDef,
    ) -> (code: CallbackCode)
        ensures
            !Self::handles(DefinitionKind::CartCoordinate) ==> {
                &&& code == CallbackCode::Success
                &&& *final(self) == *old(self)
            },
    {
        CallbackCode::Success
    }

    fn visit_interrupt_generator(
        &mut self,
        defn: InterruptGeneratorRef,
        value: &InterruptGeneratorDef,
    ) -> (code: CallbackCode)
        ensures
            !Self::handles(DefinitionKind::InterruptGenerator) ==> {
                &&& code == CallbackCode::Success
                &&& *final(self) == *old(self)
            },
    {
        CallbackCode::Success
    }

    fn visit_io_file_property(
        &mut self,
        defn: IoFileRef,
        value: &IoFilePropertyDef,
    ) -> (code: CallbackCode)
        ensures
            !Self::handles(DefinitionKind::IoFileProperty) ==> {
                &&& code == CallbackCode::Success
                &&& *final(self) == *old(self)
            },
    {
        CallbackCode::Success
    }

    fn visit_io_regular_file(
        &mut self,
        defn: IoFileRef,
        value: &IoRegularFileDef,
    ) -> (code: CallbackCode)
        ensures
            !Self::handles(DefinitionKind::IoRegularFile) ==> {
                &&& code == CallbackCode::Success
                &&& *final(self) == *old(self)
            },
    {
        CallbackCode::Success
    }

    fn visit_io_directory(
        &mut self,
        defn: IoFileRef,
        value: &IoDirectoryDef,
    ) -> (code: CallbackCode)
        ensures
            !Self::handles(DefinitionKind::IoDirectory) ==> {
                &&& code == CallbackCode::Success
                &&& *final(self) == *old(self)
            },
    {
        CallbackCode::Success
    }

    fn visit_io_handle(
        &mut self,
        defn: IoHandleRef,
        value: &IoHandleDef,
    ) -> (code: CallbackCode)
        ensures
            !Self::handles(DefinitionKind::IoHandle) ==> {
                &&& code == CallbackCode::Success
                &&& *final(self) == *old(self)
            },
    {
        CallbackCode::Success
    }

    fn visit_io_pre_created_handle_state(
        &mut self,
        defn: IoHandleRef,
        value: &IoPreCreatedHandleStateDef,
    ) -> (code: CallbackCode)
        ensures
            !Self::handles(DefinitionKind::IoPreCreatedHandleState) ==> {
                &&& code == CallbackCode::Success
                &&& *final(self) == *old(self)
            },
    {
        CallbackCode::Success
    }
}

/// Shows the record to the method of its kind and returns that method's
/// answer: the consumer is left as that method leaves it, and the answer is
/// that method's, for the id and the payload of the record. For a kind that
/// the consumer does not handle that is no change and `Success`.
pub fn route_definition<V: DefinitionVisitor>(visitor: &mut V, definition: &Definition) -> (code:
    CallbackCode)
    ensures
        match *definition {
            Definition::Unknown => exists|r: &mut V|
                *r == *old(visitor) && *final(r) == *final(visitor)
                    && #[trigger] call_ensures(V::visit_unknown, (r,), code),
            Definition::String { defn, value } => exists|r: &mut V, s: &str|
                *r == *old(visitor) && *final(r) == *final(visitor) && s@ == value@
                    && #[trigger] call_ensures(V::visit_string, (r, defn, s), code),
            Definition::Attribute { defn, value } => exists|r: &mut V|
                *r == *old(visitor) && *final(r) == *final(visitor)
                    && #[trigger] call_ensures(
                        V::visit_attribute,
                        (r, defn, &value),
                        code,
                    ),
            Definition::ClockProperties { value } => exists|r: &mut V|
                *r == *old(visitor) && *final(r) == *final(visitor)
                    && #[trigger] call_ensures(
                        V::visit_clock_properties,
                        (r, &value),
                        code,
                    ),
            Definition::Paradigm { defn, value } => exists|r: &mut V|
                *r == *old(visitor) && *final(r) == *final(visitor)
                    && #[trigger] call_ensures(
                        V::visit_paradigm,
                        (r, defn, &value),
                        code,
                    ),
            Definition::ParadigmProperty { defn, value } => exists|r: &mut V|
                *r == *old(visitor) && *final(r) == *final(visitor)
                    && #[trigger] call_ensures(
                        V::visit_paradigm_property,
                        (r, defn, &value),
                        code,
                    ),
            Definition::IoParadigm { defn, value } => exists|r: &mut V|
                *r == *old(visitor) && *final(r) == *final(visitor)
                    && #[trigger] call_ensures(
                        V::visit_io_paradigm,
                        (r, defn, &value),
                        code,
                    ),
            Definition::SystemTreeNode { defn, value } => exists|r: &mut V|
                *r == *old(visitor) && *final(r) == *final(visitor)
                    && #[trigger] call_ensures(
                        V::visit_system_tree_node,
                        (r, defn, &value),
                        code,
                    ),
            Definition::SystemTreeNodeProperty { defn, value } => exists|r: &mut V|
                *r == *old(visitor) && *final(r) == *final(visitor)
                    && #[trigger] call_ensures(
                        V::visit_system_tree_node_property,
                        (r, defn, &value),
                        code,
                    ),
            Definition::SystemTreeNodeDomain { defn, value } => exists|r: &mut V|
                *r == *old(visitor) && *final(r) == *final(visitor)
                    && #[trigger] call_ensures(
                        V::visit_system_tree_node_domain,
                        (r, defn, &value),
                        code,
                    ),
            Definition::Location { defn, value } => exists|r: &mut V|
                *r == *old(visitor) && *final(r) == *final(visitor)
                    && #[trigger] call_ensures(
                        V::visit_location,
                        (r, defn, &value),
                        code,
                    ),
            Definition::LocationGroup { defn, value } => exists|r: &mut V|
                *r == *old(visitor) && *final(r) == *final(visitor)
                    && #[trigger] call_ensures(
                        V::visit_location_group,
                        (r, defn, &value),
                        code,
                    ),
            Definition::LocationGroupProperty { defn, value } => exists|r: &mut V|
                *r == *old(visitor) && *final(r) == *final(visitor)
                    && #[trigger] call_ensures(
                        V::visit_location_group_property,
                        (r, defn, &value),
                        code,
                    ),
            Definition::LocationProperty { defn, value } => exists|r: &mut V|
                *r == *old(visitor) && *final(r) == *final(visitor)
                    && #[trigger] call_ensures(
                        V::visit_location_property,
                        (r, defn, &value),
                        code,
                    ),
            Definition::Region { defn, value } => exists|r: &mut V|
                *r == *old(visitor) && *final(r) == *final(visitor)
                    && #[trigger] call_ensures(V::visit_region, (r, defn, &value), code),
            Definition::Callsite { defn, value } => exists|r: &mut V|
                *r == *old(visitor) && *final(r) == *final(visitor)
                    && #[trigger] call_ensures(
                        V::visit_callsite,
                        (r, defn, &value),
                        code,
                    ),
            Definition::Callpath { defn, value } => exists|r: &mut V|
                *r == *old(visitor) && *final(r) == *final(visitor)
                    && #[trigger] call_ensures(
                        V::visit_callpath,
                        (r, defn, &value),
                        code,
                    ),
            Definition::CallpathParameter { defn, value } => exists|r: &mut V|
                *r == *old(visitor) && *final(r) == *final(visitor)
                    && #[trigger] call_ensures(
                        V::visit_callpath_parameter,
                        (r, defn, &value),
                        code,
                    ),
            Definition::SourceCodeLocation { defn, value } => exists|r: &mut V|
                *r == *old(visitor) && *final(r) == *final(visitor)
                    && #[trigger] call_ensures(
                        V::visit_source_code_location,
                        (r, defn, &value),
                        code,
                    ),
            Definition::CallingContext { defn, value } => exists|r: &mut V|
                *r == *old(visitor) && *final(r) == *final(visitor)
                    && #[trigger] call_ensures(
                        V::visit_calling_context,
                        (r, defn, &value),
                        code,
                    ),
            Definition::CallingContextProperty { defn, value } => exists|r: &mut V|
                *r == *old(visitor) && *final(r) == *final(visitor)
                    && #[trigger] call_ensures(
                        V::visit_calling_context_property,
                        (r, defn, &value),
                        code,
                    ),
            Definition::Group { defn, value } => exists|r: &mut V|
                *r == *old(visitor) && *final(r) == *final(visitor)
                    && #[trigger] call_ensures(V::visit_group, (r, defn, &value), code),
            Definition::MetricMember { defn, value } => exists|r: &mut V|
                *r == *old(visitor) && *final(r) == *final(visitor)
                    && #[trigger] call_ensures(
                        V::visit_metric_member,
                        (r, defn, &value),
                        code,
                    ),
            Definition::MetricClass { defn, value } => exists|r: &mut V|
                *r == *old(visitor) && *final(r) == *final(visitor)
                    && #[trigger] call_ensures(
                        V::visit_metric_class,
                        (r, defn, &value),
                        code,
                    ),
            Definition::MetricInstance { defn, value } => exists|r: &mut V|
                *r == *old(visitor) && *final(r) == *final(visitor)
                    && #[trigger] call_ensures(
                        V::visit_metric_instance,
                        (r, defn, &value),
                        code,
                    ),
            Definition::MetricClassRecorder { defn, value } => exists|r: &mut V|
                *r == *old(visitor) && *final(r) == *final(visitor)
                    && #[trigger] call_ensures(
                        V::visit_metric_class_recorder,
                        (r, defn, &value),
                        code,
                    ),
            Definition::Comm { defn, value } => exists|r: &mut V|
                *r == *old(visitor) && *final(r) == *final(visitor)
                    && #[trigger] call_ensures(V::visit_comm, (r, defn, &value), code),
            Definition::InterComm { defn, value } => exists|r: &mut V|
                *r == *old(visitor) && *final(r) == *final(visitor)
                    && #[trigger] call_ensures(
                        V::visit_inter_comm,
                        (r, defn, &value),
                        code,
                    ),
            Definition::Parameter { defn, value } => exists|r: &mut V|
                *r == *old(visitor) && *final(r) == *final(visitor)
                    && #[trigger] call_ensures(
                        V::visit_parameter,
                        (r, defn, &value),
                        code,
                    ),
            Definition::RmaWin { defn, value } => exists|r: &mut V|
                *r == *old(visitor) && *final(r) == *final(visitor)
                    && #[trigger] call_ensures(
                        V::visit_rma_win,
                        (r, defn, &value),
                        code,
                    ),
            Definition::CartDimension { defn, value } => exists|r: &mut V|
                *r == *old(visitor) && *final(r) == *final(visitor)
                    && #[trigger] call_ensures(
                        V::visit_cart_dimension,
                        (r, defn, &value),
                        code,
                    ),
            Definition::CartTopology { defn, value } => exists|r: &mut V|
                *r == *old(visitor) && *final(r) == *final(visitor)
                    && #[trigger] call_ensures(
                        V::visit_cart_topology,
                        (r, defn, &value),
                        code,
                    ),
            Definition::CartCoordinate { defn, value } => exists|r: &mut V|
                *r == *old(visitor) && *final(r) == *final(visitor)
                    && #[trigger] call_ensures(
                        V::visit_cart_coordinate,
                        (r, defn, &value),
                        code,
                    ),
            Definition::InterruptGenerator { defn, value } => exists|r: &mut V|
                *r == *old(visitor) && *final(r) == *final(visitor)
                    && #[trigger] call_ensures(
                        V::visit_interrupt_generator,
                        (r, defn, &value),
                        code,
                    ),
            Definition::IoFileProperty { defn, value } => exists|r: &mut V|
                *r == *old(visitor) && *final(r) == *final(visitor)
                    && #[trigger] call_ensures(
                        V::visit_io_file_property,
                        (r, defn, &value),
                        code,
                    ),
            Definition::IoRegularFile { defn, value } => exists|r: &mut V|
                *r == *old(visitor) && *final(r) == *final(visitor)
                    && #[trigger] call_ensures(
                        V::visit_io_regular_file,
                        (r, defn, &value),
                        code,
                    ),
            Definition::IoDirectory { defn, value } => exists|r: &mut V|
                *r == *old(visitor) && *final(r) == *final(visitor)
                    && #[trigger] call_ensures(
                        V::visit_io_directory,
                        (r, defn, &value),
                        code,
                    ),
            Definition::IoHandle { defn, value } => exists|r: &mut V|
                *r == *old(visitor) && *final(r) == *final(visitor)
                    && #[trigger] call_ensures(
                        V::visit_io_handle,
                        (r, defn, &value),
                        code,
                    ),
            Definition::IoPreCreatedHandleState { defn, value } => exists|r: &mut V|
                *r == *old(visitor) && *final(r) == *final(visitor)
                    && #[trigger] call_ensures(
                        V::visit_io_pre_created_handle_state,
                        (r, defn, &value),
                        code,
                    ),
        },
        !V::handles(definition.spec_kind()) ==> code == CallbackCode::Success
            && *final(visitor) == *old(visitor),
{
    match definition {
        Definition::Unknown => visitor.visit_unknown(),
        Definition::String { defn, value } => visitor.visit_string(*defn, value.as_str()),
        Definition::Attribute { defn, value } => visitor.visit_attribute(*defn, value),
        Definition::ClockProperties { value } => visitor.visit_clock_properties(value),
        Definition::Paradigm { defn, value } => visitor.visit_paradigm(*defn, value),
        Definition::ParadigmProperty { defn, value } => {
            visitor.visit_paradigm_property(*defn, value)
        },
        Definition::IoParadigm { defn, value } => visitor.visit_io_paradigm(*defn, value),
        Definition::SystemTreeNode { defn, value } => visitor.visit_system_tree_node(*defn, value),
        Definition::SystemTreeNodeProperty { defn, value } => {
            visitor.visit_system_tree_node_property(*defn, value)
        },
        Definition::SystemTreeNodeDomain { defn, value } => {
            visitor.visit_system_tree_node_domain(*defn, value)
        },
        Definition::Location { defn, value } => visitor.visit_location(*defn, value),
        Definition::LocationGroup { defn, value } => visitor.visit_location_group(*defn, value),
        Definition::LocationGroupProperty { defn, value } => {
            visitor.visit_location_group_property(*defn, value)
        },
        Definition::LocationProperty { defn, value } => {
            visitor.visit_location_property(*defn, value)
        },
        Definition::Region { defn, value } => visitor.visit_region(*defn, value),
        Definition::Callsite { defn, value } => visitor.visit_callsite(*defn, value),
        Definition::Callpath { defn, value } => visitor.visit_callpath(*defn, value),
        Definition::CallpathParameter { defn, value } => {
            visitor.visit_callpath_parameter(*defn, value)
        },
        Definition::SourceCodeLocation { defn, value } => {
            visitor.visit_source_code_location(*defn, value)
        },
        Definition::CallingContext { defn, value } => visitor.visit_calling_context(*defn, value),
        Definition::CallingContextProperty { defn, value } => {
            visitor.visit_calling_context_property(*defn, value)
        },
        Definition::Group { defn, value } => visitor.visit_group(*defn, value),
        Definition::MetricMember { defn, value } => visitor.visit_metric_member(*defn, value),
        Definition::MetricClass { defn, value } => visitor.visit_metric_class(*defn, value),
        Definition::MetricInstance { defn, value } => visitor.visit_metric_instance(*defn, value),
        Definition::MetricClassRecorder { defn, value } => {
            visitor.visit_metric_class_recorder(*defn, value)
        },
        Definition::Comm { defn, value } => visitor.visit_comm(*defn, value),
        Definition::InterComm { defn, value } => visitor.visit_inter_comm(*defn, value),
        Definition::Parameter { defn, value } => visitor.visit_parameter(*defn, value),
        Definition::RmaWin { defn, value } => visitor.visit_rma_win(*defn, value),
        Definition::CartDimension { defn, value } => visitor.visit_cart_dimension(*defn, value),
        Definition::CartTopology { defn, value } => visitor.visit_cart_topology(*defn, value),
        Definition::CartCoordinate { defn, value } => visitor.visit_cart_coordinate(*defn, value),
        Definition::InterruptGenerator { defn, value } => {
            visitor.visit_interrupt_generator(*defn, value)
        },
        Definition::IoFileProperty { defn, value } => visitor.visit_io_file_property(*defn, value),
        Definition::IoRegularFile { defn, value } => visitor.visit_io_regular_file(*defn, value),
        Definition::IoDirectory { defn, value } => visitor.visit_io_directory(*defn, value),
        Definition::IoHandle { defn, value } => visitor.visit_io_handle(*defn, value),
        Definition::IoPreCreatedHandleState { defn, value } => {
            visitor.visit_io_pre_created_handle_state(*defn, value)
        },
    }
}

/// A row of definition consumers that acts as one. Each of its methods
/// hands the record to the method of the same kind of each consumer in the
/// order of registration, and ends the round with the first answer that is
/// not `Success`: the consumers after that one are not visited.
pub type DefinitionVisitorMultiplexer<V> = Multiplexer<V>;

impl<V: DefinitionVisitor> DefinitionVisitor for Multiplexer<V> {

    fn visit_unknown(&mut self) -> (code: CallbackCode)
        ensures
            exists|stop: int|
                {
                    &&& #[trigger] ends_at(old(self)@, final(self)@, code, stop)
                    &&& forall|j: int| #[trigger]
                        before_stop(j, stop) ==> exists|r: &mut V|
                            *r == old(self)@[j] && *final(r) == final(self)@[j]
                                && #[trigger] call_ensures(
                                    V::visit_unknown,
                                    (r,),
                                    CallbackCode::Success,
                                )
                    &&& stop < old(self)@.len() ==> exists|r: &mut V|
                        *r == old(self)@[stop] && *final(r) == final(self)@[stop]
                            && #[trigger] call_ensures(V::visit_unknown, (r,), code)
                },
    {
        let call = |visitor: &mut V| -> (code: CallbackCode)
            ensures
                exists|r: &mut V|
                    *r == *old(visitor) && *final(r) == *final(visitor)
                        && #[trigger] call_ensures(V::visit_unknown, (r,), code),
            {
                visitor.visit_unknown()
            };
        self.fan(call)
    }

    fn visit_string(&mut self, defn: StringRef, value: &str) -> (code: CallbackCode)
        ensures
            exists|stop: int|
                {
                    &&& #[trigger] ends_at(old(self)@, final(self)@, code, stop)
                    &&& forall|j: int| #[trigger]
                        before_stop(j, stop) ==> exists|r: &mut V|
                            *r == old(self)@[j] && *final(r) == final(self)@[j]
                                && #[trigger] call_ensures(
                                    V::visit_string,
                                    (r, defn, value),
                                    CallbackCode::Success,
                                )
                    &&& stop < old(self)@.len() ==> exists|r: &mut V|
                        *r == old(self)@[stop] && *final(r) == final(self)@[stop]
                            && #[trigger] call_ensures(V::visit_string, (r, defn, value), code)
                },
    {
        let call = |visitor: &mut V| -> (code: CallbackCode)
            ensures
                exists|r: &mut V|
                    *r == *old(visitor) && *final(r) == *final(visitor)
                        && #[trigger] call_ensures(V::visit_string, (r, defn, value), code),
            {
                visitor.visit_string(defn, value)
            };
        self.fan(call)
    }

    fn visit_attribute(
        &mut self,
        defn: AttributeRef,
        value: &AttributeDef,
    ) -> (code: CallbackCode)
        ensures
            exists|stop: int|
                {
                    &&& #[trigger] ends_at(old(self)@, final(self)@, code, stop)
                    &&& forall|j: int| #[trigger]
                        before_stop(j, stop) ==> exists|r: &mut V|
                            *r == old(self)@[j] && *final(r) == final(self)@[j]
                                && #[trigger] call_ensures(
                                    V::visit_attribute,
                                    (r, defn, value),
                                    CallbackCode::Success,
                                )
                    &&& stop < old(self)@.len() ==> exists|r: &mut V|
                        *r == old(self)@[stop] && *final(r) == final(self)@[stop]
                            && #[trigger] call_ensures(V::visit_attribute, (r, defn, value), code)
                },
    {
        let call = |visitor: &mut V| -> (code: CallbackCode)
            ensures
                exists|r: &mut V|
                    *r == *old(visitor) && *final(r) == *final(visitor)
                        && #[trigger] call_ensures(V::visit_attribute, (r, defn, value), code),
            {
                visitor.visit_attribute(defn, value)
            };
        self.fan(call)
    }

    fn visit_clock_properties(
        &mut self,
        value: &ClockPropertiesDef,
    ) -> (code: CallbackCode)
        ensures
            exists|stop: int|
                {
                    &&& #[trigger] ends_at(old(self)@, final(self)@, code, stop)
                    &&& forall|j: int| #[trigger]
                        before_stop(j, stop) ==> exists|r: &mut V|
                            *r == old(self)@[j] && *final(r) == final(self)@[j]
                                && #[trigger] call_ensures(
                                    V::visit_clock_properties,
                                    (r, value),
                                    CallbackCode::Success,
                                )
                    &&& stop < old(self)@.len() ==> exists|r: &mut V|
                        *r == old(self)@[stop] && *final(r) == final(self)@[stop]
                            && #[trigger] call_ensures(V::visit_clock_properties, (r, value), code)
                },
    {
        let call = |visitor: &mut V| -> (code: CallbackCode)
            ensures
                exists|r: &mut V|
                    *r == *old(visitor) && *final(r) == *final(visitor)
                        && #[trigger] call_ensures(V::visit_clock_properties, (r, value), code),
            {
                visitor.visit_clock_properties(value)
            };
        self.fan(call)
    }

    fn visit_paradigm(
        &mut self,
        defn: Paradigm,
        value: &ParadigmDef,
    ) -> (code: CallbackCode)
        ensures
            exists|stop: int|
                {
                    &&& #[trigger] ends_at(old(self)@, final(self)@, code, stop)
                    &&& forall|j: int| #[trigger]
                        before_stop(j, stop) ==> exists|r: &mut V|
                            *r == old(self)@[j] && *final(r) == final(self)@[j]
                                && #[trigger] call_ensures(
                                    V::visit_paradigm,
                                    (r, defn, value),
                                    CallbackCode::Success,
                                )
                    &&& stop < old(self)@.len() ==> exists|r: &mut V|
                        *r == old(self)@[stop] && *final(r) == final(self)@[stop]
                            && #[trigger] call_ensures(V::visit_paradigm, (r, defn, value), code)
                },
    {
        let call = |visitor: &mut V| -> (code: CallbackCode)
            ensures
                exists|r: &mut V|
                    *r == *old(visitor) && *final(r) == *final(visitor)
                        && #[trigger] call_ensures(V::visit_paradigm, (r, defn, value), code),
            {
                visitor.visit_paradigm(defn, value)
            };
        self.fan(call)
    }

    fn visit_paradigm_property(
        &mut self,
        defn: Paradigm,
        value: &ParadigmPropertyDef,
    ) -> (code: CallbackCode)
        ensures
            exists|stop: int|
                {
                    &&& #[trigger] ends_at(old(self)@, final(self)@, code, stop)
                    &&& forall|j: int| #[trigger]
                        before_stop(j, stop) ==> exists|r: &mut V|
                            *r == old(self)@[j] && *final(r) == final(self)@[j]
                                && #[trigger] call_ensures(
                                    V::visit_paradigm_property,
                                    (r, defn, value),
                                    CallbackCode::Success,
                                )
                    &&& stop < old(self)@.len() ==> exists|r: &mut V|
                        *r == old(self)@[stop] && *final(r) == final(self)@[stop]
                            && #[trigger] call_ensures(
                                V::visit_paradigm_property,
                                (r, defn, value),
                                code,
                            )
                },
    {
        let call = |visitor: &mut V| -> (code: CallbackCode)
            ensures
                exists|r: &mut V|
                    *r == *old(visitor) && *final(r) == *final(visitor)
                        && #[trigger] call_ensures(
                            V::visit_paradigm_property,
                            (r, defn, value),
                            code,
                        ),
            {
                visitor.visit_paradigm_property(defn, value)
            };
        self.fan(call)
    }

    fn visit_io_paradigm(
        &mut self,
        defn: IoParadigmRef,
        value: &IoParadigmDef,
    ) -> (code: CallbackCode)
        ensures
            exists|stop: int|
                {
                    &&& #[trigger] ends_at(old(self)@, final(self)@, code, stop)
                    &&& forall|j: int| #[trigger]
                        before_stop(j, stop) ==> exists|r: &mut V|
                            *r == old(self)@[j] && *final(r) == final(self)@[j]
                                && #[trigger] call_ensures(
                                    V::visit_io_paradigm,
                                    (r, defn, value),
                                    CallbackCode::Success,
                                )
                    &&& stop < old(self)@.len() ==> exists|r: &mut V|
                        *r == old(self)@[stop] && *final(r) == final(self)@[stop]
                            && #[trigger] call_ensures(
                                V::visit_io_paradigm,
                                (r, defn, value),
                                code,
                            )
                },
    {
        let call = |visitor: &mut V| -> (code: CallbackCode)
            ensures
                exists|r: &mut V|
                    *r == *old(visitor) && *final(r) == *final(visitor)
                        && #[trigger] call_ensures(V::visit_io_paradigm, (r, defn, value), code),
            {
                visitor.visit_io_paradigm(defn, value)
            };
        self.fan(call)
    }

    fn visit_system_tree_node(
        &mut self,
        defn: SystemTreeNodeRef,
        value: &SystemTreeNodeDef,
    ) -> (code: CallbackCode)
        ensures
            exists|stop: int|
                {
                    &&& #[trigger] ends_at(old(self)@, final(self)@, code, stop)
                    &&& forall|j: int| #[trigger]
                        before_stop(j, stop) ==> exists|r: &mut V|
                            *r == old(self)@[j] && *final(r) == final(self)@[j]
                                && #[trigger] call_ensures(
                                    V::visit_system_tree_node,
                                    (r, defn, value),
                                    CallbackCode::Success,
                                )
                    &&& stop < old(self)@.len() ==> exists|r: &mut V|
                        *r == old(self)@[stop] && *final(r) == final(self)@[stop]
                            && #[trigger] call_ensures(
                                V::visit_system_tree_node,
                                (r, defn, value),
                                code,
                            )
                },
    {
        let call = |visitor: &mut V| -> (code: CallbackCode)
            ensures
                exists|r: &mut V|
                    *r == *old(visitor) && *final(r) == *final(visitor)
                        && #[trigger] call_ensures(
                            V::visit_system_tree_node,
                            (r, defn, value),
                            code,
                        ),
            {
                visitor.visit_system_tree_node(defn, value)
            };
        self.fan(call)
    }

    fn visit_system_tree_node_property(
        &mut self,
        defn: SystemTreeNodeRef,
        value: &SystemTreeNodePropertyDef,
    ) -> (code: CallbackCode)
        ensures
            exists|stop: int|
                {
                    &&& #[trigger] ends_at(old(self)@, final(self)@, code, stop)
                    &&& forall|j: int| #[trigger]
                        before_stop(j, stop) ==> exists|r: &mut V|
                            *r == old(self)@[j] && *final(r) == final(self)@[j]
                                && #[trigger] call_ensures(
                                    V::visit_system_tree_node_property,
                                    (r, defn, value),
                                    CallbackCode::Success,
                                )
                    &&& stop < old(self)@.len() ==> exists|r: &mut V|
                        *r == old(self)@[stop] && *final(r) == final(self)@[stop]
                            && #[trigger] call_ensures(
                                V::visit_system_tree_node_property,
                                (r, defn, value),
                                code,
                            )
                },
    {
        let call = |visitor: &mut V| -> (code: CallbackCode)
            ensures
                exists|r: &mut V|
                    *r == *old(visitor) && *final(r) == *final(visitor)
                        && #[trigger] call_ensures(
                            V::visit_system_tree_node_property,
                            (r, defn, value),
                            code,
                        ),
            {
                visitor.visit_system_tree_node_property(defn, value)
            };
        self.fan(call)
    }

    fn visit_system_tree_node_domain(
        &mut self,
        defn: SystemTreeNodeRef,
        value: &SystemTreeNodeDomainDef,
    ) -> (code: CallbackCode)
        ensures
            exists|stop: int|
                {
                    &&& #[trigger] ends_at(old(self)@, final(self)@, code, stop)
                    &&& forall|j: int| #[trigger]
                        before_stop(j, stop) ==> exists|r: &mut V|
                            *r == old(self)@[j] && *final(r) == final(self)@[j]
                                && #[trigger] call_ensures(
                                    V::visit_system_tree_node_domain,
                                    (r, defn, value),
                                    CallbackCode::Success,
                                )
                    &&& stop < old(self)@.len() ==> exists|r: &mut V|
                        *r == old(self)@[stop] && *final(r) == final(self)@[stop]
                            && #[trigger] call_ensures(
                                V::visit_system_tree_node_domain,
                                (r, defn, value),
                                code,
                            )
                },
    {
        let call = |visitor: &mut V| -> (code: CallbackCode)
            ensures
                exists|r: &mut V|
                    *r == *old(visitor) && *final(r) == *final(visitor)
                        && #[trigger] call_ensures(
                            V::visit_system_tree_node_domain,
                            (r, defn, value),
                            code,
                        ),
            {
                visitor.visit_system_tree_node_domain(defn, value)
            };
        self.fan(call)
    }

    fn visit_location(
        &mut self,
        defn: LocationRef,
        value: &LocationDef,
    ) -> (code: CallbackCode)
        ensures
            exists|stop: int|
                {
                    &&& #[trigger] ends_at(old(self)@, final(self)@, code, stop)
                    &&& forall|j: int| #[trigger]
                        before_stop(j, stop) ==> exists|r: &mut V|
                            *r == old(self)@[j] && *final(r) == final(self)@[j]
                                && #[trigger] call_ensures(
                                    V::visit_location,
                                    (r, defn, value),
                                    CallbackCode::Success,
                                )
                    &&& stop < old(self)@.len() ==> exists|r: &mut V|
                        *r == old(self)@[stop] && *final(r) == final(self)@[stop]
                            && #[trigger] call_ensures(V::visit_location, (r, defn, value), code)
                },
    {
        let call = |visitor: &mut V| -> (code: CallbackCode)
            ensures
                exists|r: &mut V|
                    *r == *old(visitor) && *final(r) == *final(visitor)
                        && #[trigger] call_ensures(V::visit_location, (r, defn, value), code),
            {
                visitor.visit_location(defn, value)
            };
        self.fan(call)
    }

    fn visit_location_group(
        &mut self,
        defn: LocationGroupRef,
        value: &LocationGroupDef,
    ) -> (code: CallbackCode)
        ensures
            exists|stop: int|
                {
                    &&& #[trigger] ends_at(old(self)@, final(self)@, code, stop)
                    &&& forall|j: int| #[trigger]
                        before_stop(j, stop) ==> exists|r: &mut V|
                            *r == old(self)@[j] && *final(r) == final(self)@[j]
                                && #[trigger] call_ensures(
                                    V::visit_location_group,
                                    (r, defn, value),
                                    CallbackCode::Success,
                                )
                    &&& stop < old(self)@.len() ==> exists|r: &mut V|
                        *r == old(self)@[stop] && *final(r) == final(self)@[stop]
                            && #[trigger] call_ensures(
                                V::visit_location_group,
                                (r, defn, value),
                                code,
                            )
                },
    {
        let call = |visitor: &mut V| -> (code: CallbackCode)
            ensures
                exists|r: &mut V|
                    *r == *old(visitor) && *final(r) == *final(visitor)
                        && #[trigger] call_ensures(V::visit_location_group, (r, defn, value), code),
            {
                visitor.visit_location_group(defn, value)
            };
        self.fan(call)
    }

    fn visit_location_group_property(
        &mut self,
        defn: LocationGroupRef,
        value: &LocationGroupPropertyDef,
    ) -> (code: CallbackCode)
        ensures
            exists|stop: int|
                {
                    &&& #[trigger] ends_at(old(self)@, final(self)@, code, stop)
                    &&& forall|j: int| #[trigger]
                        before_stop(j, stop) ==> exists|r: &mut V|
                            *r == old(self)@[j] && *final(r) == final(self)@[j]
                                && #[trigger] call_ensures(
                                    V::visit_location_group_property,
                                    (r, defn, value),
                                    CallbackCode::Success,
                                )
                    &&& stop < old(self)@.len() ==> exists|r: &mut V|
                        *r == old(self)@[stop] && *final(r) == final(self)@[stop]
                            && #[trigger] call_ensures(
                                V::visit_location_group_property,
                                (r, defn, value),
                                code,
                            )
                },
    {
        let call = |visitor: &mut V| -> (code: CallbackCode)
            ensures
                exists|r: &mut V|
                    *r == *old(visitor) && *final(r) == *final(visitor)
                        && #[trigger] call_ensures(
                            V::visit_location_group_property,
                            (r, defn, value),
                            code,
                        ),
            {
                visitor.visit_location_group_property(defn, value)
            };
        self.fan(call)
    }

    fn visit_location_property(
        &mut self,
        defn: LocationRef,
        value: &LocationPropertyDef,
    ) -> (code: CallbackCode)
        ensures
            exists|stop: int|
                {
                    &&& #[trigger] ends_at(old(self)@, final(self)@, code, stop)
                    &&& forall|j: int| #[trigger]
                        before_stop(j, stop) ==> exists|r: &mut V|
                            *r == old(self)@[j] && *final(r) == final(self)@[j]
                                && #[trigger] call_ensures(
                                    V::visit_location_property,
                                    (r, defn, value),
                                    CallbackCode::Success,
                                )
                    &&& stop < old(self)@.len() ==> exists|r: &mut V|
                        *r == old(self)@[stop] && *final(r) == final(self)@[stop]
                            && #[trigger] call_ensures(
                                V::visit_location_property,
                                (r, defn, value),
                                code,
                            )
                },
    {
        let call = |visitor: &mut V| -> (code: CallbackCode)
            ensures
                exists|r: &mut V|
                    *r == *old(visitor) && *final(r) == *final(visitor)
                        && #[trigger] call_ensures(
                            V::visit_location_property,
                            (r, defn, value),
                            code,
                        ),
            {
                visitor.visit_location_property(defn, value)
            };
        self.fan(call)
    }

    fn visit_region(
        &mut self,
        defn: RegionRef,
        value: &RegionDef,
    ) -> (code: CallbackCode)
        ensures
            exists|stop: int|
                {
                    &&& #[trigger] ends_at(old(self)@, final(self)@, code, stop)
                    &&& forall|j: int| #[trigger]
                        before_stop(j, stop) ==> exists|r: &mut V|
                            *r == old(self)@[j] && *final(r) == final(self)@[j]
                                && #[trigger] call_ensures(
                                    V::visit_region,
                                    (r, defn, value),
                                    CallbackCode::Success,
                                )
                    &&& stop < old(self)@.len() ==> exists|r: &mut V|
                        *r == old(self)@[stop] && *final(r) == final(self)@[stop]
                            && #[trigger] call_ensures(V::visit_region, (r, defn, value), code)
                },
    {
        let call = |visitor: &mut V| -> (code: CallbackCode)
            ensures
                exists|r: &mut V|
                    *r == *old(visitor) && *final(r) == *final(visitor)
                        && #[trigger] call_ensures(V::visit_region, (r, defn, value), code),
            {
                visitor.visit_region(defn, value)
            };
        self.fan(call)
    }

    fn visit_callsite(
        &mut self,
        defn: CallsiteRef,
        value: &CallsiteDef,
    ) -> (code: CallbackCode)
        ensures
            exists|stop: int|
                {
                    &&& #[trigger] ends_at(old(self)@, final(self)@, code, stop)
                    &&& forall|j: int| #[trigger]
                        before_stop(j, stop) ==> exists|r: &mut V|
                            *r == old(self)@[j] && *final(r) == final(self)@[j]
                                && #[trigger] call_ensures(
                                    V::visit_callsite,
                                    (r, defn, value),
                                    CallbackCode::Success,
                                )
                    &&& stop < old(self)@.len() ==> exists|r: &mut V|
                        *r == old(self)@[stop] && *final(r) == final(self)@[stop]
                            && #[trigger] call_ensures(V::visit_callsite, (r, defn, value), code)
                },
    {
        let call = |visitor: &mut V| -> (code: CallbackCode)
            ensures
                exists|r: &mut V|
                    *r == *old(visitor) && *final(r) == *final(visitor)
                        && #[trigger] call_ensures(V::visit_callsite, (r, defn, value), code),
            {
                visitor.visit_callsite(defn, value)
            };
        self.fan(call)
    }

    fn visit_callpath(
        &mut self,
        defn: CallpathRef,
        value: &CallpathDef,
    ) -> (code: CallbackCode)
        ensures
            exists|stop: int|
                {
                    &&& #[trigger] ends_at(old(self)@, final(self)@, code, stop)
                    &&& forall|j: int| #[trigger]
                        before_stop(j, stop) ==> exists|r: &mut V|
                            *r == old(self)@[j] && *final(r) == final(self)@[j]
                                && #[trigger] call_ensures(
                                    V::visit_callpath,
                                    (r, defn, value),
                                    CallbackCode::Success,
                                )
                    &&& stop < old(self)@.len() ==> exists|r: &mut V|
                        *r == old(self)@[stop] && *final(r) == final(self)@[stop]
                            && #[trigger] call_ensures(V::visit_callpath, (r, defn, value), code)
                },
    {
        let call = |visitor: &mut V| -> (code: CallbackCode)
            ensures
                exists|r: &mut V|
                    *r == *old(visitor) && *final(r) == *final(visitor)
                        && #[trigger] call_ensures(V::visit_callpath, (r, defn, value), code),
            {
                visitor.visit_callpath(defn, value)
            };
        self.fan(call)
    }

    fn visit_callpath_parameter(
        &mut self,
        defn: CallpathRef,
        value: &CallpathParameterDef,
    ) -> (code: CallbackCode)
        ensures
            exists|stop: int|
                {
                    &&& #[trigger] ends_at(old(self)@, final(self)@, code, stop)
                    &&& forall|j: int| #[trigger]
                        before_stop(j, stop) ==> exists|r: &mut V|
                            *r == old(self)@[j] && *final(r) == final(self)@[j]
                                && #[trigger] call_ensures(
                                    V::visit_callpath_parameter,
                                    (r, defn, value),
                                    CallbackCode::Success,
                                )
                    &&& stop < old(self)@.len() ==> exists|r: &mut V|
                        *r == old(self)@[stop] && *final(r) == final(self)@[stop]
                            && #[trigger] call_ensures(
                                V::visit_callpath_parameter,
                                (r, defn, value),
                                code,
                            )
                },
    {
        let call = |visitor: &mut V| -> (code: CallbackCode)
            ensures
                exists|r: &mut V|
                    *r == *old(visitor) && *final(r) == *final(visitor)
                        && #[trigger] call_ensures(
                            V::visit_callpath_parameter,
                            (r, defn, value),
                            code,
                        ),
            {
                visitor.visit_callpath_parameter(defn, value)
            };
        self.fan(call)
    }

    fn visit_source_code_location(
        &mut self,
        defn: SourceCodeLocationRef,
        value: &SourceCodeLocationDef,
    ) -> (code: CallbackCode)
        ensures
            exists|stop: int|
                {
                    &&& #[trigger] ends_at(old(self)@, final(self)@, code, stop)
                    &&& forall|j: int| #[trigger]
                        before_stop(j, stop) ==> exists|r: &mut V|
                            *r == old(self)@[j] && *final(r) == final(self)@[j]
                                && #[trigger] call_ensures(
                                    V::visit_source_code_location,
                                    (r, defn, value),
                                    CallbackCode::Success,
                                )
                    &&& stop < old(self)@.len() ==> exists|r: &mut V|
                        *r == old(self)@[stop] && *final(r) == final(self)@[stop]
                            && #[trigger] call_ensures(
                                V::visit_source_code_location,
                                (r, defn, value),
                                code,
                            )
                },
    {
        let call = |visitor: &mut V| -> (code: CallbackCode)
            ensures
                exists|r: &mut V|
                    *r == *old(visitor) && *final(r) == *final(visitor)
                        && #[trigger] call_ensures(
                            V::visit_source_code_location,
                            (r, defn, value),
                            code,
                        ),
            {
                visitor.visit_source_code_location(defn, value)
            };
        self.fan(call)
    }

    fn visit_calling_context(
        &mut self,
        defn: CallingContextRef,
        value: &CallingContextDef,
    ) -> (code: CallbackCode)
        ensures
            exists|stop: int|
                {
                    &&& #[trigger] ends_at(old(self)@, final(self)@, code, stop)
                    &&& forall|j: int| #[trigger]
                        before_stop(j, stop) ==> exists|r: &mut V|
                            *r == old(self)@[j] && *final(r) == final(self)@[j]
                                && #[trigger] call_ensures(
                                    V::visit_calling_context,
                                    (r, defn, value),
                                    CallbackCode::Success,
                                )
                    &&& stop < old(self)@.len() ==> exists|r: &mut V|
                        *r == old(self)@[stop] && *final(r) == final(self)@[stop]
                            && #[trigger] call_ensures(
                                V::visit_calling_context,
                                (r, defn, value),
                                code,
                            )
                },
    {
        let call = |visitor: &mut V| -> (code: CallbackCode)
            ensures
                exists|r: &mut V|
                    *r == *old(visitor) && *final(r) == *final(visitor)
                        && #[trigger] call_ensures(
                            V::visit_calling_context,
                            (r, defn, value),
                            code,
                        ),
            {
                visitor.visit_calling_context(defn, value)
            };
        self.fan(call)
    }

    fn visit_calling_context_property(
        &mut self,
        defn: CallingContextRef,
        value: &CallingContextPropertyDef,
    ) -> (code: CallbackCode)
        ensures
            exists|stop: int|
                {
                    &&& #[trigger] ends_at(old(self)@, final(self)@, code, stop)
                    &&& forall|j: int| #[trigger]
                        before_stop(j, stop) ==> exists|r: &mut V|
                            *r == old(self)@[j] && *final(r) == final(self)@[j]
                                && #[trigger] call_ensures(
                                    V::visit_calling_context_property,
                                    (r, defn, value),
                                    CallbackCode::Success,
                                )
                    &&& stop < old(self)@.len() ==> exists|r: &mut V|
                        *r == old(self)@[stop] && *final(r) == final(self)@[stop]
                            && #[trigger] call_ensures(
                                V::visit_calling_context_property,
                                (r, defn, value),
                                code,
                            )
                },
    {
        let call = |visitor: &mut V| -> (code: CallbackCode)
            ensures
                exists|r: &mut V|
                    *r == *old(visitor) && *final(r) == *final(visitor)
                        && #[trigger] call_ensures(
                            V::visit_calling_context_property,
                            (r, defn, value),
                            code,
                        ),
            {
                visitor.visit_calling_context_property(defn, value)
            };
        self.fan(call)
    }

    fn visit_group(&mut self, defn: GroupRef, value: &GroupDef) -> (code: CallbackCode)
        ensures
            exists|stop: int|
                {
                    &&& #[trigger] ends_at(old(self)@, final(self)@, code, stop)
                    &&& forall|j: int| #[trigger]
                        before_stop(j, stop) ==> exists|r: &mut V|
                            *r == old(self)@[j] && *final(r) == final(self)@[j]
                                && #[trigger] call_ensures(
                                    V::visit_group,
                                    (r, defn, value),
                                    CallbackCode::Success,
                                )
                    &&& stop < old(self)@.len() ==> exists|r: &mut V|
                        *r == old(self)@[stop] && *final(r) == final(self)@[stop]
                            && #[trigger] call_ensures(V::visit_group, (r, defn, value), code)
                },
    {
        let call = |visitor: &mut V| -> (code: CallbackCode)
            ensures
                exists|r: &mut V|
                    *r == *old(visitor) && *final(r) == *final(visitor)
                        && #[trigger] call_ensures(V::visit_group, (r, defn, value), code),
            {
                visitor.visit_group(defn, value)
            };
        self.fan(call)
    }

    fn visit_metric_member(
        &mut self,
        defn: MetricMemberRef,
        value: &MetricMemberDef,
    ) -> (code: CallbackCode)
        ensures
            exists|stop: int|
                {
                    &&& #[trigger] ends_at(old(self)@, final(self)@, code, stop)
                    &&& forall|j: int| #[trigger]
                        before_stop(j, stop) ==> exists|r: &mut V|
                            *r == old(self)@[j] && *final(r) == final(self)@[j]
                                && #[trigger] call_ensures(
                                    V::visit_metric_member,
                                    (r, defn, value),
                                    CallbackCode::Success,
                                )
                    &&& stop < old(self)@.len() ==> exists|r: &mut V|
                        *r == old(self)@[stop] && *final(r) == final(self)@[stop]
                            && #[trigger] call_ensures(
                                V::visit_metric_member,
                                (r, defn, value),
                                code,
                            )
                },
    {
        let call = |visitor: &mut V| -> (code: CallbackCode)
            ensures
                exists|r: &mut V|
                    *r == *old(visitor) && *final(r) == *final(visitor)
                        && #[trigger] call_ensures(V::visit_metric_member, (r, defn, value), code),
            {
                visitor.visit_metric_member(defn, value)
            };
        self.fan(call)
    }

    fn visit_metric_class(
        &mut self,
        defn: MetricRef,
        value: &MetricClassDef,
    ) -> (code: CallbackCode)
        ensures
            exists|stop: int|
                {
                    &&& #[trigger] ends_at(old(self)@, final(self)@, code, stop)
                    &&& forall|j: int| #[trigger]
                        before_stop(j, stop) ==> exists|r: &mut V|
                            *r == old(self)@[j] && *final(r) == final(self)@[j]
                                && #[trigger] call_ensures(
                                    V::visit_metric_class,
                                    (r, defn, value),
                                    CallbackCode::Success,
                                )
                    &&& stop < old(self)@.len() ==> exists|r: &mut V|
                        *r == old(self)@[stop] && *final(r) == final(self)@[stop]
                            && #[trigger] call_ensures(
                                V::visit_metric_class,
                                (r, defn, value),
                                code,
                            )
                },
    {
        let call = |visitor: &mut V| -> (code: CallbackCode)
            ensures
                exists|r: &mut V|
                    *r == *old(visitor) && *final(r) == *final(visitor)
                        && #[trigger] call_ensures(V::visit_metric_class, (r, defn, value), code),
            {
                visitor.visit_metric_class(defn, value)
            };
        self.fan(call)
    }

    fn visit_metric_instance(
        &mut self,
        defn: MetricRef,
        value: &MetricInstanceDef,
    ) -> (code: CallbackCode)
        ensures
            exists|stop: int|
                {
                    &&& #[trigger] ends_at(old(self)@, final(self)@, code, stop)
                    &&& forall|j: int| #[trigger]
                        before_stop(j, stop) ==> exists|r: &mut V|
                            *r == old(self)@[j] && *final(r) == final(self)@[j]
                                && #[trigger] call_ensures(
                                    V::visit_metric_instance,
                                    (r, defn, value),
                                    CallbackCode::Success,
                                )
                    &&& stop < old(self)@.len() ==> exists|r: &mut V|
                        *r == old(self)@[stop] && *final(r) == final(self)@[stop]
                            && #[trigger] call_ensures(
                                V::visit_metric_instance,
                                (r, defn, value),
                                code,
                            )
                },
    {
        let call = |visitor: &mut V| -> (code: CallbackCode)
            ensures
                exists|r: &mut V|
                    *r == *old(visitor) && *final(r) == *final(visitor)
                        && #[trigger] call_ensures(
                            V::visit_metric_instance,
                            (r, defn, value),
                            code,
                        ),
            {
                visitor.visit_metric_instance(defn, value)
            };
        self.fan(call)
    }

    fn visit_metric_class_recorder(
        &mut self,
        defn: MetricRef,
        value: &MetricClassRecorderDef,
    ) -> (code: CallbackCode)
        ensures
            exists|stop: int|
                {
                    &&& #[trigger] ends_at(old(self)@, final(self)@, code, stop)
                    &&& forall|j: int| #[trigger]
                        before_stop(j, stop) ==> exists|r: &mut V|
                            *r == old(self)@[j] && *final(r) == final(self)@[j]
                                && #[trigger] call_ensures(
                                    V::visit_metric_class_recorder,
                                    (r, defn, value),
                                    CallbackCode::Success,
                                )
                    &&& stop < old(self)@.len() ==> exists|r: &mut V|
                        *r == old(self)@[stop] && *final(r) == final(self)@[stop]
                            && #[trigger] call_ensures(
                                V::visit_metric_class_recorder,
                                (r, defn, value),
                                code,
                            )
                },
    {
        let call = |visitor: &mut V| -> (code: CallbackCode)
            ensures
                exists|r: &mut V|
                    *r == *old(visitor) && *final(r) == *final(visitor)
                        && #[trigger] call_ensures(
                            V::visit_metric_class_recorder,
                            (r, defn, value),
                            code,
                        ),
            {
                visitor.visit_metric_class_recorder(defn, value)
            };
        self.fan(call)
    }

    fn visit_comm(&mut self, defn: CommRef, value: &CommDef) -> (code: CallbackCode)
        ensures
            exists|stop: int|
                {
                    &&& #[trigger] ends_at(old(self)@, final(self)@, code, stop)
                    &&& forall|j: int| #[trigger]
                        before_stop(j, stop) ==> exists|r: &mut V|
                            *r == old(self)@[j] && *final(r) == final(self)@[j]
                                && #[trigger] call_ensures(
                                    V::visit_comm,
                                    (r, defn, value),
                                    CallbackCode::Success,
                                )
                    &&& stop < old(self)@.len() ==> exists|r: &mut V|
                        *r == old(self)@[stop] && *final(r) == final(self)@[stop]
                            && #[trigger] call_ensures(V::visit_comm, (r, defn, value), code)
                },
    {
        let call = |visitor: &mut V| -> (code: CallbackCode)
            ensures
                exists|r: &mut V|
                    *r == *old(visitor) && *final(r) == *final(visitor)
                        && #[trigger] call_ensures(V::visit_comm, (r, defn, value), code),
            {
                visitor.visit_comm(defn, value)
            };
        self.fan(call)
    }

    fn visit_inter_comm(
        &mut self,
        defn: CommRef,
        value: &InterCommDef,
    ) -> (code: CallbackCode)
        ensures
            exists|stop: int|
                {
                    &&& #[trigger] ends_at(old(self)@, final(self)@, code, stop)
                    &&& forall|j: int| #[trigger]
                        before_stop(j, stop) ==> exists|r: &mut V|
                            *r == old(self)@[j] && *final(r) == final(self)@[j]
                                && #[trigger] call_ensures(
                                    V::visit_inter_comm,
                                    (r, defn, value),
                                    CallbackCode::Success,
                                )
                    &&& stop < old(self)@.len() ==> exists|r: &mut V|
                        *r == old(self)@[stop] && *final(r) == final(self)@[stop]
                            && #[trigger] call_ensures(V::visit_inter_comm, (r, defn, value), code)
                },
    {
        let call = |visitor: &mut V| -> (code: CallbackCode)
            ensures
                exists|r: &mut V|
                    *r == *old(visitor) && *final(r) == *final(visitor)
                        && #[trigger] call_ensures(V::visit_inter_comm, (r, defn, value), code),
            {
                visitor.visit_inter_comm(defn, value)
            };
        self.fan(call)
    }

    fn visit_parameter(
        &mut self,
        defn: ParameterRef,
        value: &ParameterDef,
    ) -> (code: CallbackCode)
        ensures
            exists|stop: int|
                {
                    &&& #[trigger] ends_at(old(self)@, final(self)@, code, stop)
                    &&& forall|j: int| #[trigger]
                        before_stop(j, stop) ==> exists|r: &mut V|
                            *r == old(self)@[j] && *final(r) == final(self)@[j]
                                && #[trigger] call_ensures(
                                    V::visit_parameter,
                                    (r, defn, value),
                                    CallbackCode::Success,
                                )
                    &&& stop < old(self)@.len() ==> exists|r: &mut V|
                        *r == old(self)@[stop] && *final(r) == final(self)@[stop]
                            && #[trigger] call_ensures(V::visit_parameter, (r, defn, value), code)
                },
    {
        let call = |visitor: &mut V| -> (code: CallbackCode)
            ensures
                exists|r: &mut V|
                    *r == *old(visitor) && *final(r) == *final(visitor)
                        && #[trigger] call_ensures(V::visit_parameter, (r, defn, value), code),
            {
                visitor.visit_parameter(defn, value)
            };
        self.fan(call)
    }

    fn visit_rma_win(
        &mut self,
        defn: RmaWinRef,
        value: &RmaWinDef,
    ) -> (code: CallbackCode)
        ensures
            exists|stop: int|
                {
                    &&& #[trigger] ends_at(old(self)@, final(self)@, code, stop)
                    &&& forall|j: int| #[trigger]
                        before_stop(j, stop) ==> exists|r: &mut V|
                            *r == old(self)@[j] && *final(r) == final(self)@[j]
                                && #[trigger] call_ensures(
                                    V::visit_rma_win,
                                    (r, defn, value),
                                    CallbackCode::Success,
                                )
                    &&& stop < old(self)@.len() ==> exists|r: &mut V|
                        *r == old(self)@[stop] && *final(r) == final(self)@[stop]
                            && #[trigger] call_ensures(V::visit_rma_win, (r, defn, value), code)
                },
    {
        let call = |visitor: &mut V| -> (code: CallbackCode)
            ensures
                exists|r: &mut V|
                    *r == *old(visitor) && *final(r) == *final(visitor)
                        && #[trigger] call_ensures(V::visit_rma_win, (r, defn, value), code),
            {
                visitor.visit_rma_win(defn, value)
            };
        self.fan(call)
    }

    fn visit_cart_dimension(
        &mut self,
        defn: CartDimensionRef,
        value: &CartDimensionDef,
    ) -> (code: CallbackCode)
        ensures
            exists|stop: int|
                {
                    &&& #[trigger] ends_at(old(self)@, final(self)@, code, stop)
                    &&& forall|j: int| #[trigger]
                        before_stop(j, stop) ==> exists|r: &mut V|
                            *r == old(self)@[j] && *final(r) == final(self)@[j]
                                && #[trigger] call_ensures(
                                    V::visit_cart_dimension,
                                    (r, defn, value),
                                    CallbackCode::Success,
                                )
                    &&& stop < old(self)@.len() ==> exists|r: &mut V|
                        *r == old(self)@[stop] && *final(r) == final(self)@[stop]
                            && #[trigger] call_ensures(
                                V::visit_cart_dimension,
                                (r, defn, value),
                                code,
                            )
                },
    {
        let call = |visitor: &mut V| -> (code: CallbackCode)
            ensures
                exists|r: &mut V|
                    *r == *old(visitor) && *final(r) == *final(visitor)
                        && #[trigger] call_ensures(V::visit_cart_dimension, (r, defn, value), code),
            {
                visitor.visit_cart_dimension(defn, value)
            };
        self.fan(call)
    }

    fn visit_cart_topology(
        &mut self,
        defn: CartTopologyRef,
        value: &CartTopologyDef,
    ) -> (code: CallbackCode)
        ensures
            exists|stop: int|
                {
                    &&& #[trigger] ends_at(old(self)@, final(self)@, code, stop)
                    &&& forall|j: int| #[trigger]
                        before_stop(j, stop) ==> exists|r: &mut V|
                            *r == old(self)@[j] && *final(r) == final(self)@[j]
                                && #[trigger] call_ensures(
                                    V::visit_cart_topology,
                                    (r, defn, value),
                                    CallbackCode::Success,
                                )
                    &&& stop < old(self)@.len() ==> exists|r: &mut V|
                        *r == old(self)@[stop] && *final(r) == final(self)@[stop]
                            && #[trigger] call_ensures(
                                V::visit_cart_topology,
                                (r, defn, value),
                                code,
                            )
                },
    {
        let call = |visitor: &mut V| -> (code: CallbackCode)
            ensures
                exists|r: &mut V|
                    *r == *old(visitor) && *final(r) == *final(visitor)
                        && #[trigger] call_ensures(V::visit_cart_topology, (r, defn, value), code),
            {
                visitor.visit_cart_topology(defn, value)
            };
        self.fan(call)
    }

    fn visit_cart_coordinate(
        &mut self,
        defn: CartTopologyRef,
        value: &CartCoordinateDef,
    ) -> (code: CallbackCode)
        ensures
            exists|stop: int|
                {
                    &&& #[trigger] ends_at(old(self)@, final(self)@, code, stop)
                    &&& forall|j: int| #[trigger]
                        before_stop(j, stop) ==> exists|r: &mut V|
                            *r == old(self)@[j] && *final(r) == final(self)@[j]
                                && #[trigger] call_ensures(
                                    V::visit_cart_coordinate,
                                    (r, defn, value),
                                    CallbackCode::Success,
                                )
                    &&& stop < old(self)@.len() ==> exists|r: &mut V|
                        *r == old(self)@[stop] && *final(r) == final(self)@[stop]
                            && #[trigger] call_ensures(
                                V::visit_cart_coordinate,
                                (r, defn, value),
                                code,
                            )
                },
    {
        let call = |visitor: &mut V| -> (code: CallbackCode)
            ensures
                exists|r: &mut V|
                    *r == *old(visitor) && *final(r) == *final(visitor)
                        && #[trigger] call_ensures(
                            V::visit_cart_coordinate,
                            (r, defn, value),
                            code,
                        ),
            {
                visitor.visit_cart_coordinate(defn, value)
            };
        self.fan(call)
    }

    fn visit_interrupt_generator(
        &mut self,
        defn: InterruptGeneratorRef,
        value: &InterruptGeneratorDef,
    ) -> (code: CallbackCode)
        ensures
            exists|stop: int|
                {
                    &&& #[trigger] ends_at(old(self)@, final(self)@, code, stop)
                    &&& forall|j: int| #[trigger]
                        before_stop(j, stop) ==> exists|r: &mut V|
                            *r == old(self)@[j] && *final(r) == final(self)@[j]
                                && #[trigger] call_ensures(
                                    V::visit_interrupt_generator,
                                    (r, defn, value),
                                    CallbackCode::Success,
                                )
                    &&& stop < old(self)@.len() ==> exists|r: &mut V|
                        *r == old(self)@[stop] && *final(r) == final(self)@[stop]
                            && #[trigger] call_ensures(
                                V::visit_interrupt_generator,
                                (r, defn, value),
                                code,
                            )
                },
    {
        let call = |visitor: &mut V| -> (code: CallbackCode)
            ensures
                exists|r: &mut V|
                    *r == *old(visitor) && *final(r) == *final(visitor)
                        && #[trigger] call_ensures(
                            V::visit_interrupt_generator,
                            (r, defn, value),
                            code,
                        ),
            {
                visitor.visit_interrupt_generator(defn, value)
            };
        self.fan(call)
    }

    fn visit_io_file_property(
        &mut self,
        defn: IoFileRef,
        value: &IoFilePropertyDef,
    ) -> (code: CallbackCode)
        ensures
            exists|stop: int|
                {
                    &&& #[trigger] ends_at(old(self)@, final(self)@, code, stop)
                    &&& forall|j: int| #[trigger]
                        before_stop(j, stop) ==> exists|r: &mut V|
                            *r == old(self)@[j] && *final(r) == final(self)@[j]
                                && #[trigger] call_ensures(
                                    V::visit_io_file_property,
                                    (r, defn, value),
                                    CallbackCode::Success,
                                )
                    &&& stop < old(self)@.len() ==> exists|r: &mut V|
                        *r == old(self)@[stop] && *final(r) == final(self)@[stop]
                            && #[trigger] call_ensures(
                                V::visit_io_file_property,
                                (r, defn, value),
                                code,
                            )
                },
    {
        let call = |visitor: &mut V| -> (code: CallbackCode)
            ensures
                exists|r: &mut V|
                    *r == *old(visitor) && *final(r) == *final(visitor)
                        && #[trigger] call_ensures(
                            V::visit_io_file_property,
                            (r, defn, value),
                            code,
                        ),
            {
                visitor.visit_io_file_property(defn, value)
            };
        self.fan(call)
    }

    fn visit_io_regular_file(
        &mut self,
        defn: IoFileRef,
        value: &IoRegularFileDef,
    ) -> (code: CallbackCode)
        ensures
            exists|stop: int|
                {
                    &&& #[trigger] ends_at(old(self)@, final(self)@, code, stop)
                    &&& forall|j: int| #[trigger]
                        before_stop(j, stop) ==> exists|r: &mut V|
                            *r == old(self)@[j] && *final(r) == final(self)@[j]
                                && #[trigger] call_ensures(
                                    V::visit_io_regular_file,
                                    (r, defn, value),
                                    CallbackCode::Success,
                                )
                    &&& stop < old(self)@.len() ==> exists|r: &mut V|
                        *r == old(self)@[stop] && *final(r) == final(self)@[stop]
                            && #[trigger] call_ensures(
                                V::visit_io_regular_file,
                                (r, defn, value),
                                code,
                            )
                },
    {
        let call = |visitor: &mut V| -> (code: CallbackCode)
            ensures
                exists|r: &mut V|
                    *r == *old(visitor) && *final(r) == *final(visitor)
                        && #[trigger] call_ensures(
                            V::visit_io_regular_file,
                            (r, defn, value),
                            code,
                        ),
            {
                visitor.visit_io_regular_file(defn, value)
            };
        self.fan(call)
    }

    fn visit_io_directory(
        &mut self,
        defn: IoFileRef,
        value: &IoDirectoryDef,
    ) -> (code: CallbackCode)
        ensures
            exists|stop: int|
                {
                    &&& #[trigger] ends_at(old(self)@, final(self)@, code, stop)
                    &&& forall|j: int| #[trigger]
                        before_stop(j, stop) ==> exists|r: &mut V|
                            *r == old(self)@[j] && *final(r) == final(self)@[j]
                                && #[trigger] call_ensures(
                                    V::visit_io_directory,
                                    (r, defn, value),
                                    CallbackCode::Success,
                                )
                    &&& stop < old(self)@.len() ==> exists|r: &mut V|
                        *r == old(self)@[stop] && *final(r) == final(self)@[stop]
                            && #[trigger] call_ensures(
                                V::visit_io_directory,
                                (r, defn, value),
                                code,
                            )
                },
    {
        let call = |visitor: &mut V| -> (code: CallbackCode)
            ensures
                exists|r: &mut V|
                    *r == *old(visitor) && *final(r) == *final(visitor)
                        && #[trigger] call_ensures(V::visit_io_directory, (r, defn, value), code),
            {
                visitor.visit_io_directory(defn, value)
            };
        self.fan(call)
    }

    fn visit_io_handle(
        &mut self,
        defn: IoHandleRef,
        value: &IoHandleDef,
    ) -> (code: CallbackCode)
        ensures
            exists|stop: int|
                {
                    &&& #[trigger] ends_at(old(self)@, final(self)@, code, stop)
                    &&& forall|j: int| #[trigger]
                        before_stop(j, stop) ==> exists|r: &mut V|
                            *r == old(self)@[j] && *final(r) == final(self)@[j]
                                && #[trigger] call_ensures(
                                    V::visit_io_handle,
                                    (r, defn, value),
                                    CallbackCode::Success,
                                )
                    &&& stop < old(self)@.len() ==> exists|r: &mut V|
                        *r == old(self)@[stop] && *final(r) == final(self)@[stop]
                            && #[trigger] call_ensures(V::visit_io_handle, (r, defn, value), code)
                },
    {
        let call = |visitor: &mut V| -> (code: CallbackCode)
            ensures
                exists|r: &mut V|
                    *r == *old(visitor) && *final(r) == *final(visitor)
                        && #[trigger] call_ensures(V::visit_io_handle, (r, defn, value), code),
            {
                visitor.visit_io_handle(defn, value)
            };
        self.fan(call)
    }

    fn visit_io_pre_created_handle_state(
        &mut self,
        defn: IoHandleRef,
        value: &IoPreCreatedHandleStateDef,
    ) -> (code: CallbackCode)
        ensures
            exists|stop: int|
                {
                    &&& #[trigger] ends_at(old(self)@, final(self)@, code, stop)
                    &&& forall|j: int| #[trigger]
                        before_stop(j, stop) ==> exists|r: &mut V|
                            *r == old(self)@[j] && *final(r) == final(self)@[j]
                                && #[trigger] call_ensures(
                                    V::visit_io_pre_created_handle_state,
                                    (r, defn, value),
                                    CallbackCode::Success,
                                )
                    &&& stop < old(self)@.len() ==> exists|r: &mut V|
                        *r == old(self)@[stop] && *final(r) == final(self)@[stop]
                            && #[trigger] call_ensures(
                                V::visit_io_pre_created_handle_state,
                                (r, defn, value),
                                code,
                            )
                },
    {
        let call = |visitor: &mut V| -> (code: CallbackCode)
            ensures
                exists|r: &mut V|
                    *r == *old(visitor) && *final(r) == *final(visitor)
                        && #[trigger] call_ensures(
                            V::visit_io_pre_created_handle_state,
                            (r, defn, value),
                            code,
                        ),
            {
                visitor.visit_io_pre_created_handle_state(defn, value)
            };
        self.fan(call)
    }
}

} // verus!
