use qml_meta::marshal::{to_dynamic_int, to_dynamic_text, DynamicValue};
use qml_meta::qobject::{emit_signal, QObject, QObjectWrapper};

#[test]
fn emission_keeps_the_argument_order() {
    let obj = QObject { id: 4 };
    let v1 = to_dynamic_int(1);
    let v2 = to_dynamic_int(2);
    let req = emit_signal(&obj, "ping", vec![v1, v2]);
    assert_eq!(req.object, QObject { id: 4 });
    assert_eq!(req.name, "ping");
    assert_eq!(req.parameters_count, 2);
    assert_eq!(req.parameters, vec![DynamicValue::Int(1), DynamicValue::Int(2)]);
}

#[test]
fn emission_marshals_mixed_kinds_in_declared_order() {
    let obj = QObject { id: 9 };
    let req = emit_signal(
        &obj,
        "note",
        vec![to_dynamic_text(String::from("hi")), to_dynamic_int(7)],
    );
    assert_eq!(req.parameters_count, 2);
    assert_eq!(
        req.parameters,
        vec![DynamicValue::Text(String::from("hi")), DynamicValue::Int(7)]
    );
}

#[test]
fn wrapper_emits_through_its_own_handle() {
    let w = QObjectWrapper::new(5u32, Vec::new(), QObject { id: 11 });
    let req = w.emit("ping", vec![to_dynamic_int(1), to_dynamic_int(2)]);
    assert_eq!(req.object, QObject { id: 11 });
    assert_eq!(req.name, "ping");
    assert_eq!(req.parameters, vec![DynamicValue::Int(1), DynamicValue::Int(2)]);
}

#[test]
fn emission_with_no_arguments_sends_an_empty_array() {
    let obj = QObject { id: 2 };
    let req = emit_signal(&obj, "done", vec![]);
    assert_eq!(req.name, "done");
    assert_eq!(req.parameters_count, 0);
    assert!(req.parameters.is_empty());
}
