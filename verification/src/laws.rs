//! The laws the generator obeys, stated and proved once for every
//! interface definition, over the same predicates the generating functions
//! promise in their own contracts.

use vstd::prelude::*;

use crate::model::{
    field_matches_thunk, module_matches, param_view_eq, params_view_eq, passes_through,
    receiver_kind_of, receiver_param_name, ret_matches, strings_view_eq, thunk_matches,
    GeneratedModule, InterfaceDef, MethodSig, RawParam, Thunk, VTable, VTableField,
};

verus! {

/// Law: the generated aggregate has exactly one field per method of the
/// interface, in declaration order and under the method's name, and the
/// constructor's initializers stand in lockstep with the fields — whatever
/// non-method items the interface carries, they contribute nothing.
pub proof fn lemma_fields_in_lockstep(def: InterfaceDef, gm: GeneratedModule)
    requires
        module_matches(def, gm),
    ensures
        gm.vtable.fields@.len() == def.methods@.len(),
        gm.vtable.initializers@.len() == def.methods@.len(),
        forall|i: int|
            0 <= i < def.methods@.len() ==> (#[trigger] gm.vtable.fields@[i]).name@
                == def.methods@[i].name@,
        forall|i: int|
            0 <= i < def.methods@.len() ==> (#[trigger] gm.vtable.initializers@[i])@
                == def.methods@[i].name@,
{
    assert forall|i: int|
        0 <= i < def.methods@.len() implies (#[trigger] gm.vtable.fields@[i]).name@
        == def.methods@[i].name@ by {
        assert(thunk_matches(def.methods@[i], gm.thunks@[i]));
        assert(field_matches_thunk(gm.vtable.fields@[i], gm.thunks@[i]));
    }
    assert forall|i: int|
        0 <= i < def.methods@.len() implies (#[trigger] gm.vtable.initializers@[i])@
        == def.methods@[i].name@ by {
        assert(thunk_matches(def.methods@[i], gm.thunks@[i]));
    }
}

/// Law: a thunk for a method without a receiver accepts exactly the
/// method's own parameter list — nothing added, nothing removed — and
/// forwards every one of its parameters, in order.
pub proof fn lemma_static_thunk_params_unchanged(sig: MethodSig, t: Thunk)
    requires
        thunk_matches(sig, t),
        receiver_kind_of(sig.params@) is NoReceiver,
    ensures
        t.params@.len() == sig.params@.len(),
        forall|i: int|
            0 <= i < sig.params@.len() ==> passes_through(sig.params@[i], #[trigger] t.params@[i]),
        t.call_args@.len() == t.params@.len(),
        forall|i: int|
            0 <= i < t.call_args@.len() ==> (#[trigger] t.call_args@[i])@ == t.params@[i].name@,
{
    assert forall|i: int|
        0 <= i < t.call_args@.len() implies (#[trigger] t.call_args@[i])@
        == t.params@[i].name@ by {
        assert(t.call_args@[i]@ == t.params@[i + 0].name@);
    }
}

/// Law: a thunk for a method that takes its receiver by const reference
/// takes a const opaque pointer, uniformly named, as its first parameter,
/// carries the remaining parameters through unchanged and in order, and
/// forwards exactly those remaining parameters.
pub proof fn lemma_const_ref_thunk_shape(sig: MethodSig, t: Thunk)
    requires
        thunk_matches(sig, t),
        receiver_kind_of(sig.params@) is ByConstRef,
    ensures
        t.params@.len() == sig.params@.len(),
        t.params@.len() >= 1,
        t.params@[0].name@ == receiver_param_name(),
        t.params@[0].ty is ConstOpaque,
        forall|i: int|
            1 <= i < sig.params@.len() ==> passes_through(sig.params@[i], #[trigger] t.params@[i]),
        t.call_args@.len() == t.params@.len() - 1,
        forall|i: int|
            0 <= i < t.call_args@.len() ==> (#[trigger] t.call_args@[i])@ == t.params@[i
                + 1].name@,
{
}

/// Law: symmetric with the const case — a thunk for a method that takes
/// its receiver by mutable reference starts with a mutable opaque pointer.
pub proof fn lemma_mut_ref_thunk_shape(sig: MethodSig, t: Thunk)
    requires
        thunk_matches(sig, t),
        receiver_kind_of(sig.params@) is ByMutRef,
    ensures
        t.params@.len() == sig.params@.len(),
        t.params@.len() >= 1,
        t.params@[0].name@ == receiver_param_name(),
        t.params@[0].ty is MutOpaque,
        forall|i: int|
            1 <= i < sig.params@.len() ==> passes_through(sig.params@[i], #[trigger] t.params@[i]),
        t.call_args@.len() == t.params@.len() - 1,
        forall|i: int|
            0 <= i < t.call_args@.len() ==> (#[trigger] t.call_args@[i])@ == t.params@[i
                + 1].name@,
{
}

/// The forwarded argument at position `i` is the method's own declared
/// parameter at position `i + skip`, by name.
pub open spec fn forwards_param(sig: MethodSig, t: Thunk, skip: int, i: int) -> bool {
    sig.params@[i + skip] matches RawParam::Typed { name, .. } && t.call_args@[i]@ == name@
}

/// The thunk's forwarded argument list names exactly the method's own
/// declared parameters, minus the receiver, name for name and in order,
/// and its return type is the method's own, unchanged.
pub open spec fn forwards_the_original_call(sig: MethodSig, t: Thunk) -> bool {
    let skip: int = if receiver_kind_of(sig.params@) is NoReceiver {
        0
    } else {
        1
    };
    &&& t.method_name@ == sig.name@
    &&& t.call_args@.len() == sig.params@.len() - skip
    &&& forall|i: int| 0 <= i < t.call_args@.len() ==> #[trigger] forwards_param(sig, t, skip, i)
    &&& ret_matches(t.ret, sig.ret)
}

/// Law (the static half of round-trip correctness): every generated thunk
/// is an argument-exact forwarding shim. The call it dispatches is the
/// method itself — same name, the method's own parameters forwarded one to
/// one and in order past the consumed receiver, and the declared return
/// type carried through with no wrapping. Identity of the *result* then
/// rests only on the emitted call being this one, which the serializer
/// reproduces verbatim.
pub proof fn lemma_thunk_forwards_original_call(sig: MethodSig, t: Thunk)
    requires
        thunk_matches(sig, t),
    ensures
        forwards_the_original_call(sig, t),
{
    let skip: int = if receiver_kind_of(sig.params@) is NoReceiver {
        0
    } else {
        1
    };
    assert(t.params@.len() == sig.params@.len());
    assert(t.call_args@.len() == t.params@.len() - skip);
    assert forall|i: int|
        0 <= i < t.call_args@.len() implies #[trigger] forwards_param(sig, t, skip, i) by {
        assert(t.call_args@[i]@ == t.params@[i + skip].name@);
        assert(passes_through(sig.params@[i + skip], t.params@[i + skip]));
    }
}

/// Two thunks denote the same generated function.
pub open spec fn thunk_view_eq(a: Thunk, b: Thunk) -> bool {
    &&& a.method_name@ == b.method_name@
    &&& a.receiver == b.receiver
    &&& a.prefix == b.prefix
    &&& params_view_eq(a.params@, b.params@)
    &&& ret_matches(a.ret, b.ret)
    &&& strings_view_eq(a.call_args@, b.call_args@)
}

/// Two fields denote the same function-pointer member.
pub open spec fn field_view_eq(a: VTableField, b: VTableField) -> bool {
    &&& a.name@ == b.name@
    &&& params_view_eq(a.params@, b.params@)
    &&& ret_matches(a.ret, b.ret)
}

/// Two tables denote the same generated aggregate and constructor.
pub open spec fn vtable_view_eq(a: VTable, b: VTable) -> bool {
    &&& a.interface_name@ == b.interface_name@
    &&& a.module_name@ == b.module_name@
    &&& a.vtable_name@ == b.vtable_name@
    &&& a.fields@.len() == b.fields@.len()
    &&& forall|i: int|
        0 <= i < a.fields@.len() ==> field_view_eq(#[trigger] a.fields@[i], #[trigger] b.fields@[i])
    &&& strings_view_eq(a.initializers@, b.initializers@)
}

/// Two generated modules denote the same output.
pub open spec fn module_view_eq(a: GeneratedModule, b: GeneratedModule) -> bool {
    &&& a.thunks@.len() == b.thunks@.len()
    &&& forall|i: int|
        0 <= i < a.thunks@.len() ==> thunk_view_eq(#[trigger] a.thunks@[i], #[trigger] b.thunks@[i])
    &&& vtable_view_eq(a.vtable, b.vtable)
}

/// Any two thunks generated for the same method denote the same function:
/// a thunk is a pure function of its method.
pub proof fn lemma_thunk_deterministic(sig: MethodSig, a: Thunk, b: Thunk)
    requires
        thunk_matches(sig, a),
        thunk_matches(sig, b),
    ensures
        thunk_view_eq(a, b),
{
    let raw = sig.params@;
    let kind = receiver_kind_of(raw);
    assert forall|i: int|
        0 <= i < a.params@.len() implies param_view_eq(
        #[trigger] a.params@[i],
        #[trigger] b.params@[i],
    ) by {
        if kind is NoReceiver || i >= 1 {
            assert(passes_through(raw[i], a.params@[i]));
            assert(passes_through(raw[i], b.params@[i]));
        }
    }
    let skip: int = if kind is NoReceiver {
        0
    } else {
        1
    };
    assert forall|i: int|
        0 <= i < a.call_args@.len() implies (#[trigger] a.call_args@[i])@
        == (#[trigger] b.call_args@[i])@ by {
        assert(a.call_args@[i]@ == a.params@[i + skip].name@);
        assert(b.call_args@[i]@ == b.params@[i + skip].name@);
        assert(param_view_eq(a.params@[i + skip], b.params@[i + skip]));
    }
}

/// Law: generation is deterministic. Re-running it on the same interface
/// definition yields the same thunks, the same names and the same table,
/// field for field — any two outputs the generator's contract admits for
/// one definition denote the same module.
pub proof fn lemma_generation_deterministic(
    def: InterfaceDef,
    a: GeneratedModule,
    b: GeneratedModule,
)
    requires
        module_matches(def, a),
        module_matches(def, b),
    ensures
        module_view_eq(a, b),
{
    assert forall|i: int|
        0 <= i < a.thunks@.len() implies thunk_view_eq(
        #[trigger] a.thunks@[i],
        #[trigger] b.thunks@[i],
    ) by {
        lemma_thunk_deterministic(def.methods@[i], a.thunks@[i], b.thunks@[i]);
    }
    assert forall|i: int|
        0 <= i < a.vtable.fields@.len() implies field_view_eq(
        #[trigger] a.vtable.fields@[i],
        #[trigger] b.vtable.fields@[i],
    ) by {
        let fa = a.vtable.fields@[i];
        let fb = b.vtable.fields@[i];
        let ta = a.thunks@[i];
        let tb = b.thunks@[i];
        assert(field_matches_thunk(fa, ta));
        assert(field_matches_thunk(fb, tb));
        assert(thunk_view_eq(ta, tb));
        assert forall|j: int|
            0 <= j < fa.params@.len() implies param_view_eq(
            #[trigger] fa.params@[j],
            #[trigger] fb.params@[j],
        ) by {
            assert(param_view_eq(fa.params@[j], ta.params@[j]));
            assert(param_view_eq(ta.params@[j], tb.params@[j]));
            assert(param_view_eq(fb.params@[j], tb.params@[j]));
        }
    }
    assert forall|i: int|
        0 <= i < a.vtable.initializers@.len() implies (#[trigger] a.vtable.initializers@[i])@
        == (#[trigger] b.vtable.initializers@[i])@ by {
        assert(a.vtable.initializers@[i]@ == a.thunks@[i].method_name@);
        assert(b.vtable.initializers@[i]@ == b.thunks@[i].method_name@);
        assert(thunk_view_eq(a.thunks@[i], b.thunks@[i]));
    }
}

} // verus!
