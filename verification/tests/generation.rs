use ability::classify::classify_receiver;
use ability::compile::interface;
use ability::model::{
    CompileOutput, DispatchPrefix, GeneratedModule, InputItem, InterfaceDef, MethodSig, Param,
    ParamType, RawParam, ReceiverKind,
};
use ability::thunk::project_args;
use ability::vtable::{module_name_for, vtable_name_for};

fn typed(name: &str, ty: &str) -> RawParam {
    RawParam::Typed { name: name.to_string(), ty: ty.to_string() }
}

fn sig(name: &str, params: Vec<RawParam>, ret: Option<&str>) -> MethodSig {
    MethodSig { name: name.to_string(), params, ret: ret.map(|t| t.to_string()) }
}

fn def(name: &str, methods: Vec<MethodSig>) -> InterfaceDef {
    InterfaceDef { name: name.to_string(), methods, other_items: Vec::new() }
}

fn generate(d: InterfaceDef) -> GeneratedModule {
    match interface(&InputItem::Behavioral(d)) {
        Ok(CompileOutput::Generated(gm)) => gm,
        other => panic!("expected a generated module, got {:?}", other),
    }
}

fn three_method_def() -> InterfaceDef {
    def(
        "Trait",
        vec![
            sig("foo", vec![RawParam::SelfConstRef], None),
            sig("bar", vec![RawParam::SelfMutRef], None),
            sig("baz", vec![], None),
        ],
    )
}

#[test]
fn three_method_scenario() {
    let gm = generate(three_method_def());

    assert_eq!(gm.vtable.fields.len(), 3);
    assert_eq!(gm.vtable.fields[0].name, "foo");
    assert_eq!(gm.vtable.fields[1].name, "bar");
    assert_eq!(gm.vtable.fields[2].name, "baz");
    assert_eq!(gm.vtable.initializers, vec!["foo", "bar", "baz"]);
    assert_eq!(gm.vtable.interface_name, "Trait");
    assert_eq!(gm.vtable.module_name, "ability_Trait");
    assert_eq!(gm.vtable.vtable_name, "TraitVTable");

    let foo = &gm.thunks[0];
    assert_eq!(foo.receiver, ReceiverKind::ByConstRef);
    assert_eq!(foo.prefix, DispatchPrefix::DerefConst);
    assert_eq!(foo.params.len(), 1);
    assert_eq!(foo.params[0].name, "receiver_");
    assert_eq!(foo.params[0].ty, ParamType::ConstOpaque);
    assert!(foo.call_args.is_empty());

    let bar = &gm.thunks[1];
    assert_eq!(bar.receiver, ReceiverKind::ByMutRef);
    assert_eq!(bar.prefix, DispatchPrefix::DerefMut);
    assert_eq!(bar.params.len(), 1);
    assert_eq!(bar.params[0].name, "receiver_");
    assert_eq!(bar.params[0].ty, ParamType::MutOpaque);
    assert!(bar.call_args.is_empty());

    let baz = &gm.thunks[2];
    assert_eq!(baz.receiver, ReceiverKind::NoReceiver);
    assert_eq!(baz.prefix, DispatchPrefix::AssociatedFn);
    assert!(baz.params.is_empty());
    assert!(baz.call_args.is_empty());
}

#[test]
fn static_method_params_preserved() {
    let gm = generate(def(
        "Math",
        vec![sig("sum", vec![typed("a", "u32"), typed("b", "u32")], Some("u32"))],
    ));

    let t = &gm.thunks[0];
    assert_eq!(t.receiver, ReceiverKind::NoReceiver);
    assert_eq!(t.params.len(), 2);
    assert_eq!(t.params[0], Param { name: "a".to_string(), ty: ParamType::Named("u32".to_string()) });
    assert_eq!(t.params[1], Param { name: "b".to_string(), ty: ParamType::Named("u32".to_string()) });
    assert_eq!(t.call_args, vec!["a", "b"]);
    assert_eq!(t.ret.as_deref(), Some("u32"));
    assert_eq!(gm.vtable.fields[0].ret.as_deref(), Some("u32"));
}

#[test]
fn const_ref_params_after_receiver() {
    let gm = generate(def(
        "Store",
        vec![sig(
            "get",
            vec![RawParam::SelfConstRef, typed("key", "String"), typed("limit", "usize")],
            Some("usize"),
        )],
    ));

    let t = &gm.thunks[0];
    assert_eq!(t.receiver, ReceiverKind::ByConstRef);
    assert_eq!(t.params.len(), 3);
    assert_eq!(t.params[0].name, "receiver_");
    assert_eq!(t.params[0].ty, ParamType::ConstOpaque);
    assert_eq!(t.params[1].name, "key");
    assert_eq!(t.params[1].ty, ParamType::Named("String".to_string()));
    assert_eq!(t.params[2].name, "limit");
    assert_eq!(t.call_args, vec!["key", "limit"]);
}

#[test]
fn mut_ref_params_after_receiver() {
    let gm = generate(def(
        "Store",
        vec![sig("put", vec![RawParam::SelfMutRef, typed("value", "u64")], None)],
    ));

    let t = &gm.thunks[0];
    assert_eq!(t.receiver, ReceiverKind::ByMutRef);
    assert_eq!(t.params.len(), 2);
    assert_eq!(t.params[0].name, "receiver_");
    assert_eq!(t.params[0].ty, ParamType::MutOpaque);
    assert_eq!(t.params[1].name, "value");
    assert_eq!(t.call_args, vec!["value"]);
    assert_eq!(t.ret, None);
}

#[test]
fn generation_deterministic() {
    let first = generate(three_method_def());
    let second = generate(three_method_def());
    assert_eq!(first, second);
}

#[test]
fn other_items_excluded_from_table() {
    let mut d = def(
        "Trait",
        vec![sig("foo", vec![RawParam::SelfConstRef], None), sig("baz", vec![], None)],
    );
    d.other_items.push("const LIMIT: usize;".to_string());
    d.other_items.push("type Item;".to_string());
    let gm = generate(d);
    assert_eq!(gm.vtable.fields.len(), 2);
    assert_eq!(gm.thunks.len(), 2);
    assert_eq!(gm.vtable.initializers, vec!["foo", "baz"]);
}

#[test]
fn name_synthesis() {
    assert_eq!(module_name_for("Trait"), "ability_Trait");
    assert_eq!(vtable_name_for("Trait"), "TraitVTable");
    assert_eq!(module_name_for("X"), "ability_X");
    assert_eq!(vtable_name_for("X"), "XVTable");
}

#[test]
fn pass_through_for_other_items() {
    assert_eq!(interface(&InputItem::Other), Ok(CompileOutput::PassThrough));
}

#[test]
fn empty_interface_generates_empty_table() {
    let gm = generate(def("Empty", vec![]));
    assert!(gm.vtable.fields.is_empty());
    assert!(gm.vtable.initializers.is_empty());
    assert!(gm.thunks.is_empty());
    assert_eq!(gm.vtable.module_name, "ability_Empty");
    assert_eq!(gm.vtable.vtable_name, "EmptyVTable");
}

#[test]
fn projector_skips_only_the_receiver() {
    let adjusted = vec![
        Param { name: "receiver_".to_string(), ty: ParamType::ConstOpaque },
        Param { name: "x".to_string(), ty: ParamType::Named("i64".to_string()) },
        Param { name: "y".to_string(), ty: ParamType::Named("i64".to_string()) },
    ];
    assert_eq!(project_args(&adjusted, ReceiverKind::ByConstRef), vec!["x", "y"]);

    let plain = vec![
        Param { name: "x".to_string(), ty: ParamType::Named("i64".to_string()) },
        Param { name: "y".to_string(), ty: ParamType::Named("i64".to_string()) },
    ];
    assert_eq!(project_args(&plain, ReceiverKind::NoReceiver), vec!["x", "y"]);
}

#[test]
fn classifier_static_method() {
    let params = vec![typed("n", "u8")];
    let (adjusted, kind, prefix) = classify_receiver("tick", &params).unwrap();
    assert_eq!(kind, ReceiverKind::NoReceiver);
    assert_eq!(prefix, DispatchPrefix::AssociatedFn);
    assert_eq!(adjusted.len(), 1);
    assert_eq!(adjusted[0].name, "n");
    assert_eq!(adjusted[0].ty, ParamType::Named("u8".to_string()));
}

#[test]
fn return_type_preserved_verbatim() {
    let gm = generate(def(
        "Codec",
        vec![sig("encode", vec![RawParam::SelfConstRef, typed("input", "&[u8]")], Some("Vec<u8>"))],
    ));
    assert_eq!(gm.thunks[0].ret.as_deref(), Some("Vec<u8>"));
    assert_eq!(gm.vtable.fields[0].ret.as_deref(), Some("Vec<u8>"));
    assert_eq!(gm.vtable.fields[0].params.len(), 2);
    assert_eq!(gm.vtable.fields[0].params[1].ty, ParamType::Named("&[u8]".to_string()));
}
