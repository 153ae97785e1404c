use otf2::attribute::AttributeValue;
use otf2::definition::defs::GroupDef;
use otf2::definition::defs::InterruptGeneratorDef;
use otf2::definition::defs::IoHandleDef;
use otf2::definition::defs::LocationDef;
use otf2::definition::defs::ParadigmPropertyDef;
use otf2::definition::defs::SystemTreeNodeDef;
use otf2::definition::text::push_optional;
use otf2::definition::Definition;
use otf2::native::CommRef;
use otf2::native::GroupRef;
use otf2::native::InterruptGeneratorRef;
use otf2::native::IoFileRef;
use otf2::native::IoHandleRef;
use otf2::native::IoParadigmRef;
use otf2::native::LocationGroupRef;
use otf2::native::LocationRef;
use otf2::native::RegionRef;
use otf2::native::StringRef;
use otf2::native::SystemTreeNodeRef;
use otf2::native::TypeEnum;

#[test]
fn a_string_is_written_as_it_stands() {
    let definition = Definition::String {
        defn: StringRef(7),
        value: String::from("MPI_Send, blocking"),
    };
    assert_eq!(
        definition.text(),
        "visit_string: defn: 7, value: MPI_Send, blocking"
    );
    let empty = Definition::String {
        defn: StringRef(0),
        value: String::new(),
    };
    assert_eq!(empty.text(), "visit_string: defn: 0, value: ");
}

#[test]
fn a_location_is_written_field_by_field_in_decimal() {
    let definition = Definition::Location {
        defn: LocationRef(u64::MAX),
        value: LocationDef {
            name: StringRef(12),
            location_type: 1,
            num_events: 1000,
            location_group: LocationGroupRef(0),
        },
    };
    assert_eq!(
        definition.text(),
        "visit_location: defn: 18446744073709551615, name: 12, location_type: 1, \
         num_events: 1000, location_group: 0"
    );
}

#[test]
fn an_id_that_may_be_missing_is_written_with_its_presence() {
    let root = Definition::SystemTreeNode {
        defn: SystemTreeNodeRef(0),
        value: SystemTreeNodeDef {
            name: StringRef(1),
            class_name: StringRef(2),
            parent: None,
        },
    };
    assert_eq!(
        root.text(),
        "visit_system_tree_node: defn: 0, name: 1, class_name: 2, parent: None"
    );
    let handle = Definition::IoHandle {
        defn: IoHandleRef(4),
        value: IoHandleDef {
            name: StringRef(9),
            file: IoFileRef(3),
            io_paradigm: IoParadigmRef(2),
            io_handle_flags: 1,
            comm: Some(CommRef(0)),
            parent: Some(IoHandleRef(305)),
        },
    };
    assert_eq!(
        handle.text(),
        "visit_io_handle: defn: 4, name: 9, file: 3, io_paradigm: 2, io_handle_flags: 1, \
         comm: Some(0), parent: Some(305)"
    );
    let mut text = String::from("x: ");
    push_optional(&mut text, Some(40));
    push_optional(&mut text, None);
    assert_eq!(text, "x: Some(40)None");
}

#[test]
fn a_list_is_written_as_the_number_of_its_items() {
    let definition = Definition::Group {
        defn: GroupRef(3),
        value: GroupDef {
            name: StringRef(5),
            group_type: 2,
            paradigm: 4,
            group_flags: 0,
            members: vec![10, 20, 30],
        },
    };
    assert_eq!(
        definition.text(),
        "visit_group: defn: 3, name: 5, group_type: 2, paradigm: 4, group_flags: 0, \
         members: 3 items"
    );
}

#[test]
fn a_signed_number_keeps_its_sign() {
    let definition = Definition::InterruptGenerator {
        defn: InterruptGeneratorRef(1),
        value: InterruptGeneratorDef {
            name: StringRef(2),
            interrupt_generator_mode: 0,
            base: 1,
            exponent: -9,
            period: 250,
        },
    };
    assert_eq!(
        definition.text(),
        "visit_interrupt_generator: defn: 1, name: 2, interrupt_generator_mode: 0, base: 1, \
         exponent: -9, period: 250"
    );
    let least = Definition::InterruptGenerator {
        defn: InterruptGeneratorRef(1),
        value: InterruptGeneratorDef {
            name: StringRef(2),
            interrupt_generator_mode: 0,
            base: 0,
            exponent: i64::MIN,
            period: 0,
        },
    };
    assert_eq!(
        least.text(),
        "visit_interrupt_generator: defn: 1, name: 2, interrupt_generator_mode: 0, base: 0, \
         exponent: -9223372036854775808, period: 0"
    );
}

#[test]
fn the_value_of_a_property_is_written_as_the_number_of_its_type() {
    let definition = Definition::ParadigmProperty {
        defn: 6,
        value: ParadigmPropertyDef {
            paradigm: 6,
            property: 1,
            value: AttributeValue::Region(RegionRef(77)),
        },
    };
    assert_eq!(
        definition.text(),
        "visit_paradigm_property: paradigm: 6, property: 1, type: 14, value: <attr_value>"
    );
    assert_eq!(TypeEnum::Region.number(), 14);
    assert_eq!(TypeEnum::Empty.number(), 0);
    assert_eq!(TypeEnum::LocationGroup.number(), 25);
}

#[test]
fn a_record_of_no_known_kind_is_written_by_that_name() {
    assert_eq!(Definition::Unknown.text(), "visit_unknown");
}
