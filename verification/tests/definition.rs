use std::collections::BTreeMap;

use otf2::attribute::AttributeValue;
use otf2::definition::defs::AttributeDef;
use otf2::definition::defs::CallpathDef;
use otf2::definition::defs::ClockPropertiesDef;
use otf2::definition::defs::CommDef;
use otf2::definition::defs::GroupDef;
use otf2::definition::defs::IoHandleDef;
use otf2::definition::defs::IoParadigmDef;
use otf2::definition::defs::LocationDef;
use otf2::definition::defs::LocationGroupDef;
use otf2::definition::defs::ParadigmPropertyDef;
use otf2::definition::defs::SystemTreeNodeDef;
use otf2::definition::global_reader_callbacks::read_attribute_def;
use otf2::definition::global_reader_callbacks::read_callpath_def;
use otf2::definition::global_reader_callbacks::read_clock_properties_def;
use otf2::definition::global_reader_callbacks::read_comm_def;
use otf2::definition::global_reader_callbacks::read_group_def;
use otf2::definition::global_reader_callbacks::read_io_handle_def;
use otf2::definition::global_reader_callbacks::read_io_paradigm_def;
use otf2::definition::global_reader_callbacks::read_location_def;
use otf2::definition::global_reader_callbacks::read_location_group_def;
use otf2::definition::global_reader_callbacks::read_paradigm_property_def;
use otf2::definition::global_reader_callbacks::read_region_def;
use otf2::definition::global_reader_callbacks::read_string_def;
use otf2::definition::global_reader_callbacks::read_system_tree_node_def;
use otf2::definition::global_reader_callbacks::read_unknown_def;
use otf2::definition::visitor::route_definition;
use otf2::definition::AttributeRegistry;
use otf2::definition::Definition;
use otf2::definition::DefinitionKind;
use otf2::definition::DefinitionList;
use otf2::definition::DefinitionVisitor;
use otf2::definition::DefinitionVisitorMultiplexer;
use otf2::definition::GlobalDefReaderCallbacks;
use otf2::definition::LocationRegistry;
use otf2::definition::StringRegistry;
use otf2::error::StatusCode;
use otf2::native::AttributeRef;
use otf2::native::CallbackCode;
use otf2::native::CallpathRef;
use otf2::native::CommRef;
use otf2::native::ErrorCode;
use otf2::native::GroupRef;
use otf2::native::IoFileRef;
use otf2::native::IoHandleRef;
use otf2::native::IoParadigmRef;
use otf2::native::LocationGroupRef;
use otf2::native::LocationRef;
use otf2::native::RawValue;
use otf2::native::RegionRef;
use otf2::native::StringRef;
use otf2::native::SystemTreeNodeRef;
use otf2::native::Type;
use otf2::native::OTF2_ERROR_EACCES;
use otf2::native::OTF2_SUCCESS;
use otf2::native::OTF2_UNDEFINED_UINT32;
use otf2::reader::plan::plan_definitions;
use otf2::reader::plan::Outcome;
use otf2::reader::plan::ReadError;
use otf2::reader::plan::Resource;
use otf2::reader::plan::Step;
use otf2::reader::runner::Action;
use otf2::reader::runner::Runner;
use otf2::visitor::Dispatch;
use otf2::visitor::Visit;

fn location(i: u64) -> LocationDef {
    LocationDef {
        name: StringRef(100 + i as u32),
        location_type: 1,
        num_events: 1000 * i + 7,
        location_group: LocationGroupRef(i as u32 % 2),
    }
}

#[test]
fn five_locations_among_forty_definitions() {
    let mut list = DefinitionList::new();
    let mut expected = Vec::new();
    for i in 0..40u64 {
        let code = if i % 8 == 3 {
            let value = location(i);
            expected.push((LocationRef(i), value));
            read_location_def(
                &mut list,
                LocationRef(i),
                value.name,
                value.location_type,
                value.num_events,
                value.location_group,
            )
        } else if i % 2 == 0 {
            read_string_def(&mut list, StringRef(i as u32), format!("string {}", i))
        } else {
            read_region_def(
                &mut list,
                RegionRef(i as u32),
                StringRef(1),
                StringRef(2),
                StringRef(3),
                4,
                5,
                6,
                StringRef(7),
                8,
                9,
            )
        };
        assert_eq!(code, CallbackCode::Success);
    }
    assert_eq!(list.0.len(), 40);
    let found: Vec<(LocationRef, LocationDef)> = list
        .0
        .iter()
        .filter_map(|definition| match definition {
            Definition::Location { defn, value } => Some((*defn, *value)),
            _ => None,
        })
        .collect();
    assert_eq!(found.len(), 5);
    assert_eq!(found, expected);
    assert_eq!(
        found[0],
        (
            LocationRef(3),
            LocationDef {
                name: StringRef(103),
                location_type: 1,
                num_events: 3007,
                location_group: LocationGroupRef(1)
            }
        )
    );
    assert_eq!(
        otf2::reader::select_locations(&list),
        vec![
            LocationRef(3),
            LocationRef(11),
            LocationRef(19),
            LocationRef(27),
            LocationRef(35)
        ]
    );
}

#[test]
fn callbacks_append_the_decoded_record_in_order() {
    let mut list = DefinitionList::new();
    assert_eq!(
        read_clock_properties_def(&mut list, 1, 2, 3, 4),
        CallbackCode::Success
    );
    assert_eq!(
        read_attribute_def(
            &mut list,
            AttributeRef(1),
            StringRef(2),
            StringRef(3),
            Type(4)
        ),
        CallbackCode::Success
    );
    assert_eq!(read_unknown_def(&mut list), CallbackCode::Success);
    assert_eq!(
        read_paradigm_property_def(&mut list, 9, 1, Type(6), RawValue(0xffff)),
        CallbackCode::Success
    );
    assert_eq!(
        read_group_def(&mut list, GroupRef(5), StringRef(1), 2, 3, 4, vec![7, 8, 9]),
        CallbackCode::Success
    );
    assert_eq!(
        list.0,
        vec![
            Definition::ClockProperties {
                value: ClockPropertiesDef {
                    timer_resolution: 1,
                    global_offset: 2,
                    trace_length: 3,
                    realtime_timestamp: 4
                }
            },
            Definition::Attribute {
                defn: AttributeRef(1),
                value: AttributeDef {
                    name: StringRef(2),
                    description: StringRef(3),
                    kind: Type(4)
                }
            },
            Definition::ParadigmProperty {
                defn: 9,
                value: ParadigmPropertyDef {
                    paradigm: 9,
                    property: 1,
                    value: AttributeValue::Int16(-1)
                }
            },
            Definition::Group {
                defn: GroupRef(5),
                value: GroupDef {
                    name: StringRef(1),
                    group_type: 2,
                    paradigm: 3,
                    group_flags: 4,
                    members: vec![7, 8, 9]
                }
            },
        ]
    );
    assert_eq!(list.0[0].kind(), DefinitionKind::ClockProperties);
    assert_eq!(list.0[3].kind(), DefinitionKind::Group);
}

#[test]
fn the_undefined_id_reads_as_no_reference() {
    let mut list = DefinitionList::new();
    read_system_tree_node_def(
        &mut list,
        SystemTreeNodeRef(0),
        StringRef(1),
        StringRef(2),
        SystemTreeNodeRef(OTF2_UNDEFINED_UINT32),
    );
    read_system_tree_node_def(
        &mut list,
        SystemTreeNodeRef(1),
        StringRef(1),
        StringRef(2),
        SystemTreeNodeRef(0),
    );
    read_location_group_def(
        &mut list,
        LocationGroupRef(4),
        StringRef(1),
        2,
        SystemTreeNodeRef(1),
        LocationGroupRef(OTF2_UNDEFINED_UINT32),
    );
    read_callpath_def(&mut list, CallpathRef(2), CallpathRef(1), RegionRef(3));
    read_comm_def(
        &mut list,
        CommRef(2),
        StringRef(1),
        GroupRef(3),
        CommRef(OTF2_UNDEFINED_UINT32),
        0,
    );
    read_io_handle_def(
        &mut list,
        IoHandleRef(1),
        StringRef(2),
        IoFileRef(3),
        IoParadigmRef(4),
        5,
        CommRef(OTF2_UNDEFINED_UINT32),
        IoHandleRef(0),
    );
    assert_eq!(
        list.0,
        vec![
            Definition::SystemTreeNode {
                defn: SystemTreeNodeRef(0),
                value: SystemTreeNodeDef {
                    name: StringRef(1),
                    class_name: StringRef(2),
                    parent: None
                }
            },
            Definition::SystemTreeNode {
                defn: SystemTreeNodeRef(1),
                value: SystemTreeNodeDef {
                    name: StringRef(1),
                    class_name: StringRef(2),
                    parent: Some(SystemTreeNodeRef(0))
                }
            },
            Definition::LocationGroup {
                defn: LocationGroupRef(4),
                value: LocationGroupDef {
                    name: StringRef(1),
                    location_group_type: 2,
                    system_tree_parent: SystemTreeNodeRef(1),
                    creating_location_group: None
                }
            },
            Definition::Callpath {
                defn: CallpathRef(2),
                value: CallpathDef {
                    parent: Some(CallpathRef(1)),
                    region: RegionRef(3)
                }
            },
            Definition::Comm {
                defn: CommRef(2),
                value: CommDef {
                    name: StringRef(1),
                    group: GroupRef(3),
                    parent: None,
                    flags: 0
                }
            },
            Definition::IoHandle {
                defn: IoHandleRef(1),
                value: IoHandleDef {
                    name: StringRef(2),
                    file: IoFileRef(3),
                    io_paradigm: IoParadigmRef(4),
                    io_handle_flags: 5,
                    comm: None,
                    parent: Some(IoHandleRef(0))
                }
            },
        ]
    );
    assert_eq!(SystemTreeNodeRef(5).defined(), Some(SystemTreeNodeRef(5)));
    assert_eq!(SystemTreeNodeRef(OTF2_UNDEFINED_UINT32).defined(), None);
}

#[test]
fn a_parent_stands_at_or_before_its_children() {
    let mut list = DefinitionList::new();
    let parents: [u32; 6] = [OTF2_UNDEFINED_UINT32, 0, 0, 1, 3, 2];
    for (i, parent) in parents.iter().enumerate() {
        read_string_def(&mut list, StringRef(i as u32), String::from("node"));
        read_system_tree_node_def(
            &mut list,
            SystemTreeNodeRef(i as u32),
            StringRef(i as u32),
            StringRef(0),
            SystemTreeNodeRef(*parent),
        );
    }
    for (at, definition) in list.0.iter().enumerate() {
        if let Definition::SystemTreeNode {
            value:
                SystemTreeNodeDef {
                    parent: Some(parent),
                    ..
                },
            ..
        } = definition
        {
            let parent_at = list.0.iter().position(
                |d| matches!(d, Definition::SystemTreeNode { defn, .. } if defn == parent),
            );
            assert!(parent_at.is_some());
            assert!(parent_at.unwrap() <= at);
        }
    }
}

#[test]
fn io_paradigm_values_are_decoded_by_their_tags() {
    let mut list = DefinitionList::new();
    let code = read_io_paradigm_def(
        &mut list,
        IoParadigmRef(1),
        StringRef(2),
        StringRef(3),
        4,
        5,
        vec![6, 7],
        vec![Type(1), Type(11)],
        vec![RawValue(0x1ff), RawValue(8)],
    );
    assert_eq!(code, CallbackCode::Success);
    assert_eq!(
        list.0,
        vec![Definition::IoParadigm {
            defn: IoParadigmRef(1),
            value: IoParadigmDef {
                identification: StringRef(2),
                name: StringRef(3),
                io_paradigm_class: 4,
                io_paradigm_flags: 5,
                properties: vec![6, 7],
                values: vec![
                    AttributeValue::Uint8(0xff),
                    AttributeValue::String(StringRef(8))
                ]
            },
        }]
    );
}

#[test]
fn registries_keep_the_records_of_their_kind() {
    let mut strings = StringRegistry::new();
    let mut attributes = AttributeRegistry::new();
    let mut locations = LocationRegistry::new();
    let records = vec![
        Definition::String {
            defn: StringRef(1),
            value: String::from("main"),
        },
        Definition::Location {
            defn: LocationRef(7),
            value: location(7),
        },
        Definition::Attribute {
            defn: AttributeRef(3),
            value: AttributeDef {
                name: StringRef(1),
                description: StringRef(1),
                kind: Type(2),
            },
        },
        Definition::String {
            defn: StringRef(1),
            value: String::from("again"),
        },
    ];
    for record in &records {
        assert_eq!(strings.visit(record), CallbackCode::Success);
        assert_eq!(attributes.visit(record), CallbackCode::Success);
        assert_eq!(locations.visit(record), CallbackCode::Success);
    }
    let mut expected_strings = BTreeMap::new();
    expected_strings.insert(1u32, String::from("again"));
    assert_eq!(strings, expected_strings);
    assert_eq!(attributes.len(), 1);
    assert_eq!(
        attributes.get(&3),
        Some(&AttributeDef {
            name: StringRef(1),
            description: StringRef(1),
            kind: Type(2)
        })
    );
    assert_eq!(locations.len(), 1);
    assert_eq!(locations.get(&7), Some(&location(7)));
    assert_eq!(
        strings.visit_string(StringRef(2), "two"),
        CallbackCode::Success
    );
    assert_eq!(strings.get(&2), Some(&String::from("two")));
    assert_eq!(
        locations.visit_string(StringRef(2), "two"),
        CallbackCode::Success
    );
    assert_eq!(locations.len(), 1);
}

struct Counting {
    seen: Vec<DefinitionKind>,
    strings: u32,
    stop_at: Option<DefinitionKind>,
}

impl Counting {
    fn new(stop_at: Option<DefinitionKind>) -> Self {
        Counting {
            seen: Vec::new(),
            strings: 0,
            stop_at,
        }
    }
}

impl Visit<Definition> for Counting {
    fn visit(&mut self, record: &Definition) -> CallbackCode {
        self.seen.push(record.kind());
        if self.stop_at == Some(record.kind()) {
            return CallbackCode::Interrupt;
        }
        route_definition(self, record)
    }
}

impl DefinitionVisitor for Counting {
    fn visit_string(&mut self, _defn: StringRef, _value: &str) -> CallbackCode {
        self.strings += 1;
        CallbackCode::Success
    }
}

#[test]
fn the_first_objection_ends_the_round() {
    let mut mux = DefinitionVisitorMultiplexer::new();
    mux.add_visitor(Counting::new(None));
    mux.add_visitor(Counting::new(Some(DefinitionKind::Location)));
    mux.add_visitor(Counting::new(None));
    assert_eq!(mux.len(), 3);
    let string = Definition::String {
        defn: StringRef(1),
        value: String::from("s"),
    };
    let place = Definition::Location {
        defn: LocationRef(7),
        value: location(7),
    };
    assert_eq!(mux.visit(&string), CallbackCode::Success);
    assert_eq!(mux.visit(&place), CallbackCode::Interrupt);
    assert_eq!(mux.visit(&place), CallbackCode::Interrupt);
    assert_eq!(mux.visit(&string), CallbackCode::Success);
    assert_eq!(
        mux.visitors[0].seen,
        vec![
            DefinitionKind::String,
            DefinitionKind::Location,
            DefinitionKind::Location,
            DefinitionKind::String
        ]
    );
    assert_eq!(
        mux.visitors[1].seen,
        vec![
            DefinitionKind::String,
            DefinitionKind::Location,
            DefinitionKind::Location,
            DefinitionKind::String
        ]
    );
    assert_eq!(
        mux.visitors[2].seen,
        vec![DefinitionKind::String, DefinitionKind::String]
    );
    assert_eq!(mux.visitors[0].strings, 2);
    assert_eq!(mux.visitors[2].strings, 2);
}

#[test]
fn the_row_has_a_method_for_each_kind_too() {
    let mut mux = DefinitionVisitorMultiplexer::new();
    mux.add_visitor(Counting::new(None));
    mux.add_visitor(Counting::new(None));
    assert_eq!(mux.visit_string(StringRef(1), "one"), CallbackCode::Success);
    assert_eq!(
        mux.visit_location(LocationRef(1), &location(1)),
        CallbackCode::Success
    );
    assert_eq!(mux.visit_unknown(), CallbackCode::Success);
    assert_eq!(mux.visitors[0].strings, 1);
    assert_eq!(mux.visitors[1].strings, 1);
    let mut empty: DefinitionVisitorMultiplexer<Counting> = DefinitionVisitorMultiplexer::new();
    assert_eq!(
        empty.visit(&Definition::String {
            defn: StringRef(1),
            value: String::from("s")
        }),
        CallbackCode::Success
    );
}

#[test]
fn every_kind_of_definition_gets_a_callback_in_order() {
    let order = DefinitionKind::registration_order();
    assert_eq!(order.len(), 39);
    assert_eq!(order[0], DefinitionKind::Unknown);
    assert_eq!(order[1], DefinitionKind::String);
    assert_eq!(order[10], DefinitionKind::LocationGroup);
    assert_eq!(order[11], DefinitionKind::Location);
    assert_eq!(order[38], DefinitionKind::IoPreCreatedHandleState);
    let steps = GlobalDefReaderCallbacks::set_callbacks();
    let expected: Vec<Step> = order
        .iter()
        .map(|kind| Step::SetDefCallback(*kind))
        .collect();
    assert_eq!(steps, expected);
    let mut runner = Runner::new(plan_definitions());
    assert_eq!(
        runner.advance(Outcome::pointer(64)),
        Action::Do(Step::SetDefCallback(order[0]))
    );
    for at in 1..39 {
        assert_eq!(
            runner.advance(Outcome::status(ErrorCode(OTF2_SUCCESS))),
            Action::Do(Step::SetDefCallback(order[at]))
        );
    }
    assert_eq!(
        runner.advance(Outcome::status(ErrorCode(OTF2_SUCCESS))),
        Action::Do(Step::GetGlobalDefReader)
    );
    let mut callbacks = GlobalDefReaderCallbacks::new(64);
    assert_eq!(callbacks.release(), Some(64));
    assert_eq!(callbacks.release(), None);
}

#[test]
fn registration_stops_at_the_first_refusal() {
    let mut runner = Runner::new(plan_definitions());
    let mut action = runner.advance(Outcome::pointer(64));
    let mut setters = 0;
    while let Action::Do(Step::SetDefCallback(kind)) = action {
        setters += 1;
        let code = if kind == DefinitionKind::Paradigm {
            OTF2_ERROR_EACCES
        } else if kind == DefinitionKind::Region {
            99
        } else {
            OTF2_SUCCESS
        };
        action = runner.advance(Outcome::status(ErrorCode(code)));
    }
    assert_eq!(setters, 5);
    assert_eq!(action, Action::Release(Resource::DefCallbacks(64)));
    assert_eq!(
        runner.advance(Outcome::status(ErrorCode(OTF2_SUCCESS))),
        Action::Finished(Err(ReadError::Status(StatusCode::from_raw(ErrorCode(
            OTF2_ERROR_EACCES
        )))))
    );
}

#[test]
fn a_callback_shows_the_record_to_a_consumer_behind_it() {
    let mut target = Dispatch((
        StringRegistry::new(),
        Counting::new(Some(DefinitionKind::Region)),
    ));
    assert_eq!(
        read_string_def(&mut target, StringRef(4), String::from("four")),
        CallbackCode::Success
    );
    assert_eq!(
        read_region_def(
            &mut target,
            RegionRef(1),
            StringRef(1),
            StringRef(2),
            StringRef(3),
            4,
            5,
            6,
            StringRef(7),
            8,
            9
        ),
        CallbackCode::Interrupt
    );
    assert_eq!(read_unknown_def(&mut target), CallbackCode::Success);
    let (strings, counting) = target.0;
    assert_eq!(strings.get(&4), Some(&String::from("four")));
    assert_eq!(
        counting.seen,
        vec![
            DefinitionKind::String,
            DefinitionKind::Region,
            DefinitionKind::Unknown
        ]
    );
}

struct Unknowns {
    unknown: u32,
    answer: CallbackCode,
}

impl Visit<Definition> for Unknowns {
    fn visit(&mut self, record: &Definition) -> CallbackCode {
        route_definition(self, record)
    }
}

impl DefinitionVisitor for Unknowns {
    fn visit_unknown(&mut self) -> CallbackCode {
        self.unknown += 1;
        self.answer
    }
}

#[test]
fn a_record_of_unknown_kind_reaches_every_consumer_and_not_the_list() {
    let mut list = DefinitionList::new();
    assert_eq!(read_unknown_def(&mut list), CallbackCode::Success);
    assert!(list.0.is_empty());
    assert_eq!(Definition::Unknown.kind(), DefinitionKind::Unknown);
    let mut row = DefinitionVisitorMultiplexer::new();
    row.add_visitor(Unknowns {
        unknown: 0,
        answer: CallbackCode::Success,
    });
    row.add_visitor(Unknowns {
        unknown: 0,
        answer: CallbackCode::Error,
    });
    row.add_visitor(Unknowns {
        unknown: 0,
        answer: CallbackCode::Success,
    });
    let mut target = Dispatch(row);
    assert_eq!(read_unknown_def(&mut target), CallbackCode::Error);
    assert_eq!(read_unknown_def(&mut target), CallbackCode::Error);
    let counts: Vec<u32> = target
        .0
        .visitors
        .iter()
        .map(|visitor| visitor.unknown)
        .collect();
    assert_eq!(counts, vec![2, 2, 0]);
    assert_eq!(target.0.visit_unknown(), CallbackCode::Error);
    let counts: Vec<u32> = target
        .0
        .visitors
        .iter()
        .map(|visitor| visitor.unknown)
        .collect();
    assert_eq!(counts, vec![3, 3, 0]);
}
