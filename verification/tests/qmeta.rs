use qml_meta::marshal::ValueKind;
use qml_meta::qmeta::{
    get_dos_qmeta, MetaObjectHandle, PropertyDefinitions, QMeta, QMetaDefinition,
    SignalDeclaration, SlotDeclaration, VOID_RETURN_CODE,
};

fn example_definition() -> QMetaDefinition {
    let signals = vec![
        SignalDeclaration { name: String::from("ping"), params: vec![ValueKind::Int] },
        SignalDeclaration {
            name: String::from("note"),
            params: vec![ValueKind::Text, ValueKind::Bool],
        },
    ];
    let slots = vec![SlotDeclaration {
        name: String::from("set"),
        params: vec![ValueKind::Int, ValueKind::Text],
    }];
    QMetaDefinition::new(signals, slots, String::from("Example"))
}

#[test]
fn summary_counts_equal_the_entries_present() {
    let def = example_definition();
    assert_eq!(def.sig_defs.count, 2);
    assert_eq!(def.sig_defs.definitions.len(), 2);
    assert_eq!(def.slot_defs.count, 1);
    assert_eq!(def.slot_defs.definitions.len(), 1);
    assert_eq!(def.prop_defs.count, 0);
    assert_eq!(def.prop_defs.definitions.len(), 0);
    for record in &def.sig_defs.definitions {
        assert_eq!(record.parameters_count as usize, record.parameters_meta_types.len());
    }
    for record in &def.slot_defs.definitions {
        assert_eq!(record.parameters_count as usize, record.parameters_meta_types.len());
    }
}

#[test]
fn records_follow_declaration_order_and_codes() {
    let def = example_definition();
    assert_eq!(def.name, "Example");
    assert_eq!(def.sig_defs.definitions[0].name, "ping");
    assert_eq!(def.sig_defs.definitions[0].parameters_count, 1);
    assert_eq!(def.sig_defs.definitions[0].parameters_meta_types, vec![2]);
    assert_eq!(def.sig_defs.definitions[1].name, "note");
    assert_eq!(def.sig_defs.definitions[1].parameters_count, 2);
    assert_eq!(def.sig_defs.definitions[1].parameters_meta_types, vec![10, 1]);
    assert_eq!(def.slot_defs.definitions[0].name, "set");
    assert_eq!(def.slot_defs.definitions[0].return_meta_type, VOID_RETURN_CODE);
    assert_eq!(def.slot_defs.definitions[0].parameters_meta_types, vec![2, 10]);
}

#[test]
fn empty_declarations_build_empty_tables() {
    let def = QMetaDefinition::new(Vec::new(), Vec::new(), String::from("Bare"));
    assert_eq!(def.sig_defs.count, 0);
    assert_eq!(def.sig_defs.definitions.len(), 0);
    assert_eq!(def.slot_defs.count, 0);
    assert_eq!(def.slot_defs.definitions.len(), 0);
    assert_eq!(def.prop_defs.count, 0);
}

#[test]
fn property_table_defaults_to_empty() {
    let props = PropertyDefinitions::default();
    assert_eq!(props.count, 0);
    assert_eq!(props.definitions.len(), 0);
}

#[test]
fn registration_bundles_definition_and_handle() {
    let def = example_definition();
    let meta = QMeta::new_for_qobject(def, MetaObjectHandle { id: 12 });
    assert_eq!(get_dos_qmeta(&meta), MetaObjectHandle { id: 12 });
    assert_eq!(meta.definition().name, "Example");
    assert_eq!(meta.definition().sig_defs.count, 2);
}
