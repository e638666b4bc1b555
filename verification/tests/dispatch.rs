use renga_api_rs::native::dispatch::DISPID_PROPERTYPUT;
use renga_api_rs::{CallKind, Dispatch, Error, Invocation, Variant};

fn texts(values: &[Variant]) -> Vec<String> {
    values.iter().map(|value| value.into_string().unwrap()).collect()
}

/// What a callee sees: it reads the wire list from its end.
fn received(invocation: &Invocation) -> Vec<String> {
    let mut args = texts(&invocation.wire_args);
    args.reverse();
    args
}

fn abc() -> Vec<Variant> {
    vec![Variant::from_text("A"), Variant::from_text("B"), Variant::from_text("C")]
}

#[test]
fn arguments_go_onto_the_wire_in_reverse_order() {
    let handle = Dispatch::from_raw(1);
    let invocation = handle.call("Member", Some(abc())).unwrap();
    assert_eq!(texts(&invocation.wire_args), vec!["C", "B", "A"]);
}

#[test]
fn arguments_arrive_in_the_order_of_the_caller() {
    let handle = Dispatch::from_raw(1);
    let invocation = handle.call("Member", Some(abc())).unwrap();
    assert_eq!(received(&invocation), vec!["A", "B", "C"]);
    let two = handle
        .invoke(
            CallKind::Method,
            "Member",
            vec![Variant::from_text("first"), Variant::from_text("second")],
        )
        .unwrap();
    assert_eq!(texts(&two.wire_args), vec!["second", "first"]);
    assert_eq!(received(&two), vec!["first", "second"]);
}

#[test]
fn a_call_names_its_target_and_member() {
    let handle = Dispatch::from_raw(77);
    let invocation = handle.call("GetByIndex", Some(vec![Variant::I32(3)])).unwrap();
    assert_eq!(invocation.target, handle);
    assert_eq!(invocation.kind, CallKind::Method);
    assert_eq!(invocation.member, "GetByIndex");
    assert_eq!(invocation.wire_args.len(), 1);
    assert_eq!(invocation.wire_args[0].as_int().unwrap(), 3);
    assert!(invocation.named_args.is_empty());
}

#[test]
fn a_call_without_arguments_has_an_empty_list() {
    let handle = Dispatch::from_raw(1);
    for invocation in [
        handle.call("Quit", None).unwrap(),
        handle.call("Quit", Some(vec![])).unwrap(),
    ] {
        assert_eq!(invocation.kind, CallKind::Method);
        assert_eq!(invocation.member, "Quit");
        assert!(invocation.wire_args.is_empty());
        assert!(invocation.named_args.is_empty());
    }
}

#[test]
fn a_get_has_no_arguments() {
    let invocation = Dispatch::from_raw(1).get("Enabled").unwrap();
    assert_eq!(invocation.kind, CallKind::PropertyGet);
    assert_eq!(invocation.member, "Enabled");
    assert!(invocation.wire_args.is_empty());
    assert!(invocation.named_args.is_empty());
}

#[test]
fn a_put_passes_its_value_by_name() {
    let invocation = Dispatch::from_raw(1).set("Visible", Variant::Bool(false)).unwrap();
    assert_eq!(invocation.kind, CallKind::PropertyPut);
    assert_eq!(invocation.member, "Visible");
    assert_eq!(invocation.wire_args.len(), 1);
    assert_eq!(invocation.wire_args[0].as_bool().unwrap(), false);
    assert_eq!(invocation.named_args, vec![DISPID_PROPERTYPUT]);
    assert_eq!(DISPID_PROPERTYPUT, -3);
}

#[test]
fn only_a_put_with_an_argument_names_it() {
    let handle = Dispatch::from_raw(1);
    let put = handle.invoke(CallKind::PropertyPut, "P", vec![Variant::I32(1)]).unwrap();
    assert_eq!(put.named_args, vec![-3]);
    let empty_put = handle.invoke(CallKind::PropertyPut, "P", vec![]).unwrap();
    assert!(empty_put.named_args.is_empty());
    let method = handle.invoke(CallKind::Method, "P", vec![Variant::I32(1)]).unwrap();
    assert!(method.named_args.is_empty());
    let get = handle.invoke(CallKind::PropertyGet, "P", vec![Variant::I32(1)]).unwrap();
    assert!(get.named_args.is_empty());
}

#[test]
fn a_null_handle_makes_no_request() {
    let null = Dispatch::null();
    assert!(null.is_null());
    let results = [
        null.get("Enabled"),
        null.set("Enabled", Variant::Bool(true)),
        null.call("Quit", None),
        null.invoke(CallKind::Method, "Quit", abc()),
    ];
    for result in results {
        match result {
            Err(Error::Internal(message)) => assert_eq!(message, "Dispatch handle is null"),
            other => panic!("unexpected: {:?}", other),
        }
    }
}

#[test]
fn a_handle_wraps_its_raw_reference() {
    let handle = Dispatch::from_raw(0x1000);
    assert!(!handle.is_null());
    assert_eq!(handle.as_raw(), 0x1000);
    assert_eq!(handle.into_raw(), 0x1000);
    assert!(Dispatch::from_raw(0).is_null());
    assert_eq!(Dispatch::from_raw(0), Dispatch::null());
    assert_eq!(Dispatch::null().as_raw(), 0);
    let copy = handle;
    assert_eq!(copy, handle);
}

#[test]
fn many_arguments_are_reversed_exactly() {
    let args: Vec<Variant> = (0..100).map(Variant::I32).collect();
    let invocation = Dispatch::from_raw(1).call("Many", Some(args)).unwrap();
    let wire: Vec<i32> =
        invocation.wire_args.iter().map(|value| value.as_int().unwrap()).collect();
    let expected: Vec<i32> = (0..100).rev().collect();
    assert_eq!(wire, expected);
}

#[test]
fn a_raw_reference_can_be_replaced_in_place() {
    let mut handle = Dispatch::from_raw(5);
    *handle.as_raw_mut() = 6;
    assert_eq!(handle, Dispatch::from_raw(6));
    *handle.as_raw_mut() = 0;
    assert!(handle.is_null());
}
