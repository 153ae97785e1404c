//! Registries: consumers that keep the definitions of one kind in an ordered
//! map, keyed by the number of the id that each record defines.
use vstd::prelude::*;
use std::collections::BTreeMap;
use crate::definition::defs::AttributeDef;
use crate::definition::defs::Definition;
use crate::definition::defs::DefinitionKind;
use crate::definition::defs::LocationDef;
use crate::definition::visitor::DefinitionVisitor;
use crate::native::AttributeRef;
use crate::native::CallbackCode;
use crate::native::LocationRef;
use crate::native::StringRef;
use crate::visitor::Visit;

verus! {

/// The strings of a trace by the number of their id.
pub type StringRegistry = BTreeMap<u32, String>;

/// The attribute definitions of a trace by the number of their id.
pub type AttributeRegistry = BTreeMap<u32, AttributeDef>;

/// The location definitions of a trace by the number of their id.
pub type LocationRegistry = BTreeMap<u64, LocationDef>;

/// The map after a registry of strings has seen `record`: a string enters
/// under its id, and replaces what stood there; any other record changes
/// nothing.
pub open spec fn strings_after(before: Map<u32, String>, record: Definition) -> Map<u32, String> {
    match record {
        Definition::String { defn, value } => before.insert(defn.0, value),
        _ => before,
    }
}

/// The map after a registry of attributes has seen `record`.
pub open spec fn attributes_after(before: Map<u32, AttributeDef>, record: Definition) -> Map<
    u32,
    AttributeDef,
> {
    match record {
        Definition::Attribute { defn, value } => before.insert(defn.0, value),
        _ => before,
    }
}

/// The map after a registry of locations has seen `record`.
pub open spec fn locations_after(before: Map<u64, LocationDef>, record: Definition) -> Map<
    u64,
    LocationDef,
> {
    match record {
        Definition::Location { defn, value } => before.insert(defn.0, value),
        _ => before,
    }
}

impl Visit<Definition> for BTreeMap<u32, String> {
    open spec fn visits(self, record: Definition, after: Self, code: CallbackCode) -> bool {
        code == CallbackCode::Success && after@ == strings_after(self@, record)
    }

    fn visit(&mut self, record: &Definition) -> (code: CallbackCode) {
        match record {
            Definition::String { defn, value } => {
                self.insert(defn.0, value.clone());
                CallbackCode::Success
            },
            _ => CallbackCode::Success,
        }
    }
}

impl DefinitionVisitor for BTreeMap<u32, String> {
    /// The registry handles the records of its kind, and no others.
    open spec fn handles(kind: DefinitionKind) -> bool {
        kind == DefinitionKind::String
    }

    /// Enters a copy of the string under the number of its id.
    fn visit_string(&mut self, defn: StringRef, value: &str) -> (code: CallbackCode)
        ensures
            code == CallbackCode::Success,
            final(self)@.dom() == old(self)@.dom().insert(defn.0),
            final(self)@[defn.0]@ == value@,
            forall|k: u32|
                k != defn.0 && old(self)@.contains_key(k) ==> final(self)@[k] == old(self)@[k],
    {
        self.insert(defn.0, value.to_owned());
        CallbackCode::Success
    }
}

impl Visit<Definition> for BTreeMap<u32, AttributeDef> {
    open spec fn visits(self, record: Definition, after: Self, code: CallbackCode) -> bool {
        code == CallbackCode::Success && after@ == attributes_after(self@, record)
    }

    fn visit(&mut self, record: &Definition) -> (code: CallbackCode) {
        match record {
            Definition::Attribute { defn, value } => self.visit_attribute(*defn, value),
            _ => CallbackCode::Success,
        }
    }
}

impl DefinitionVisitor for BTreeMap<u32, AttributeDef> {
    /// The registry handles the records of its kind, and no others.
    open spec fn handles(kind: DefinitionKind) -> bool {
        kind == DefinitionKind::Attribute
    }

    /// Enters the attribute under the number of its id.
    fn visit_attribute(&mut self, defn: AttributeRef, value: &AttributeDef) -> (code: CallbackCode)
        ensures
            code == CallbackCode::Success,
            final(self)@ == old(self)@.insert(defn.0, *value),
    {
        self.insert(defn.0, *value);
        CallbackCode::Success
    }
}

impl Visit<Definition> for BTreeMap<u64, LocationDef> {
    open spec fn visits(self, record: Definition, after: Self, code: CallbackCode) -> bool {
        code == CallbackCode::Success && after@ == locations_after(self@, record)
    }

    fn visit(&mut self, record: &Definition) -> (code: CallbackCode) {
        match record {
            Definition::Location { defn, value } => self.visit_location(*defn, value),
            _ => CallbackCode::Success,
        }
    }
}

impl DefinitionVisitor for BTreeMap<u64, LocationDef> {
    /// The registry handles the records of its kind, and no others.
    open spec fn handles(kind: DefinitionKind) -> bool {
        kind == DefinitionKind::Location
    }

    /// Enters the location under the number of its id.
    fn visit_location(&mut self, defn: LocationRef, value: &LocationDef) -> (code: CallbackCode)
        ensures
            code == CallbackCode::Success,
            final(self)@ == old(self)@.insert(defn.0, *value),
    {
        self.insert(defn.0, *value);
        CallbackCode::Success
    }
}

} // verus!
