use ability::compile::interface;
use ability::model::{GenError, InputItem, InterfaceDef, MethodSig, RawParam};

fn typed(name: &str, ty: &str) -> RawParam {
    RawParam::Typed { name: name.to_string(), ty: ty.to_string() }
}

fn sig(name: &str, params: Vec<RawParam>) -> MethodSig {
    MethodSig { name: name.to_string(), params, ret: None }
}

fn def(name: &str, methods: Vec<MethodSig>) -> InterfaceDef {
    InterfaceDef { name: name.to_string(), methods, other_items: Vec::new() }
}

fn expect_failure(d: InterfaceDef) -> GenError {
    match interface(&InputItem::Behavioral(d)) {
        Err(e) => e,
        ok => panic!("expected generation to fail, got {:?}", ok),
    }
}

#[test]
fn by_value_receiver_rejected() {
    let e = expect_failure(def("Trait", vec![sig("consume", vec![RawParam::SelfByValue])]));
    assert_eq!(e, GenError::UnsupportedReceiverForm { method: "consume".to_string() });
    assert_eq!(e.message(), "unsupported receiver form in method `consume`");
}

#[test]
fn exotic_receiver_rejected() {
    let e = expect_failure(def("Trait", vec![sig("pinned", vec![RawParam::SelfOther])]));
    assert_eq!(e, GenError::UnsupportedReceiverForm { method: "pinned".to_string() });
}

#[test]
fn receiver_outside_first_position_rejected() {
    let e = expect_failure(def(
        "Trait",
        vec![sig("odd", vec![typed("x", "u32"), RawParam::SelfConstRef])],
    ));
    assert_eq!(e, GenError::UnsupportedReceiverForm { method: "odd".to_string() });
}

#[test]
fn pattern_parameter_rejected_with_position() {
    let e = expect_failure(def(
        "Trait",
        vec![sig("draw", vec![RawParam::SelfConstRef, typed("x", "u32"), RawParam::Pattern])],
    ));
    assert_eq!(
        e,
        GenError::UnsupportedParameterForm { method: "draw".to_string(), index: 2 }
    );
    assert_eq!(e.message(), "unsupported parameter form in method `draw`");
}

#[test]
fn first_offending_parameter_wins() {
    let e = expect_failure(def(
        "Trait",
        vec![sig("messy", vec![RawParam::Pattern, RawParam::SelfByValue])],
    ));
    assert_eq!(
        e,
        GenError::UnsupportedParameterForm { method: "messy".to_string(), index: 0 }
    );
}

#[test]
fn first_failing_method_wins() {
    let e = expect_failure(def(
        "Trait",
        vec![
            sig("fine", vec![RawParam::SelfConstRef]),
            sig("broken", vec![RawParam::SelfByValue]),
            sig("also_broken", vec![RawParam::Pattern]),
        ],
    ));
    assert_eq!(e, GenError::UnsupportedReceiverForm { method: "broken".to_string() });
}

#[test]
fn data_aggregate_rejected() {
    let e = match interface(&InputItem::DataAggregate("Point".to_string())) {
        Err(e) => e,
        ok => panic!("expected generation to fail, got {:?}", ok),
    };
    assert_eq!(e, GenError::UnsupportedTopLevelKind);
    assert_eq!(e.message(), "not implemented");
}

#[test]
fn data_aggregate_rejected_regardless_of_shape() {
    for name in ["Empty", "Unit", "Wide"] {
        let r = interface(&InputItem::DataAggregate(name.to_string()));
        assert_eq!(r, Err(GenError::UnsupportedTopLevelKind));
    }
}

#[test]
fn no_output_accompanies_a_failure() {
    let d = def(
        "Trait",
        vec![sig("fine", vec![RawParam::SelfConstRef]), sig("bad", vec![RawParam::SelfByValue])],
    );
    let r = interface(&InputItem::Behavioral(d));
    assert!(r.is_err());
}
