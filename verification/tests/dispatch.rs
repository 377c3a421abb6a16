use qml_meta::marshal::{from_dynamic_int, from_dynamic_text, DynamicValue, ValueKind};
use qml_meta::qmeta::{QMetaDefinition, SignalDeclaration, SlotDeclaration};
use qml_meta::qobject::{dispatch, DispatchError, QObject, QObjectMacro, QObjectWrapper};

struct Receiver {
    f_calls: Vec<(i32, String)>,
    reset_calls: usize,
}

impl Receiver {
    fn new() -> Receiver {
        Receiver { f_calls: Vec::new(), reset_calls: 0 }
    }

    fn f(&mut self, a: i32, b: String) {
        self.f_calls.push((a, b));
    }

    fn reset(&mut self) {
        self.reset_calls += 1;
    }
}

impl QObjectMacro for Receiver {
    fn qslot_call(&mut self, name: &str, args: Vec<DynamicValue>) {
        match name {
            "f" => {
                let mut iter = args.into_iter();
                let a = from_dynamic_int(iter.next().expect("arity")).expect("kind");
                let b = from_dynamic_text(iter.next().expect("arity")).expect("kind");
                self.f(a, b);
            }
            "reset" => self.reset(),
            _ => panic!("unrecognized slot call: {}", name),
        }
    }

    fn qmeta(&self) -> QMetaDefinition {
        QMetaDefinition::new(
            vec![SignalDeclaration { name: String::from("ping"), params: vec![ValueKind::Int] }],
            declared_slots(),
            String::from("Receiver"),
        )
    }
}

fn declared_slots() -> Vec<SlotDeclaration> {
    vec![
        SlotDeclaration {
            name: String::from("f"),
            params: vec![ValueKind::Int, ValueKind::Text],
        },
        SlotDeclaration { name: String::from("reset"), params: vec![] },
    ]
}

fn wrapped() -> QObjectWrapper<Receiver> {
    QObjectWrapper::new(Receiver::new(), declared_slots(), QObject { id: 1 })
}

#[test]
fn matching_call_invokes_the_host_method() {
    let mut w = wrapped();
    let r = dispatch(
        &mut w,
        "f",
        vec![DynamicValue::Int(3), DynamicValue::Text(String::from("x"))],
    );
    assert_eq!(r, Ok(()));
    assert_eq!(w.origin.f_calls, vec![(3, String::from("x"))]);
}

#[test]
fn missing_arguments_fail_before_the_host_method_runs() {
    let mut w = wrapped();
    let r = dispatch(&mut w, "f", vec![DynamicValue::Int(3)]);
    assert_eq!(r, Err(DispatchError::ArityMismatch { declared: 2, supplied: 1 }));
    assert!(w.origin.f_calls.is_empty());
}

#[test]
fn wrong_kind_fails_at_its_position_before_the_host_method_runs() {
    let mut w = wrapped();
    let r = dispatch(
        &mut w,
        "f",
        vec![
            DynamicValue::Text(String::from("x")),
            DynamicValue::Text(String::from("y")),
        ],
    );
    assert_eq!(
        r,
        Err(DispatchError::KindMismatch {
            position: 0,
            expected: ValueKind::Int,
            got: ValueKind::Text,
        })
    );
    assert!(w.origin.f_calls.is_empty());
}

#[test]
fn wrong_kind_is_reported_at_the_first_disagreeing_position() {
    let mut w = wrapped();
    let r = dispatch(
        &mut w,
        "f",
        vec![DynamicValue::Int(3), DynamicValue::Bool(true)],
    );
    assert_eq!(
        r,
        Err(DispatchError::KindMismatch {
            position: 1,
            expected: ValueKind::Text,
            got: ValueKind::Bool,
        })
    );
    assert!(w.origin.f_calls.is_empty());
}

#[test]
fn unknown_slot_is_refused() {
    let mut w = wrapped();
    let r = dispatch(&mut w, "ghost", vec![]);
    assert_eq!(r, Err(DispatchError::UnknownSlot));
    assert!(w.origin.f_calls.is_empty());
    assert_eq!(w.origin.reset_calls, 0);
}

#[test]
fn zero_parameter_slot_accepts_an_empty_call() {
    let mut w = wrapped();
    let r = dispatch(&mut w, "reset", vec![]);
    assert_eq!(r, Ok(()));
    assert_eq!(w.origin.reset_calls, 1);
}

#[test]
fn extra_arguments_beyond_the_declaration_are_ignored() {
    let mut w = wrapped();
    let r = dispatch(
        &mut w,
        "reset",
        vec![DynamicValue::Int(9)],
    );
    assert_eq!(r, Ok(()));
    assert_eq!(w.origin.reset_calls, 1);
}

#[test]
fn wrapper_exposes_its_native_handle_read_only() {
    let w = wrapped();
    assert_eq!(*w.get_qobj(), QObject { id: 1 });
}
