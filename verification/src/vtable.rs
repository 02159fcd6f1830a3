//! Name synthesis and table assembly: the deterministic identifiers of the
//! generated namespace and aggregate, and the collection of per-method
//! fields and initializers into one dispatch table.

use vstd::prelude::*;
use vstd::string::StringExecFns;

use crate::model::{
    field_matches_thunk, param_view_eq, params_view_eq, ret_matches, Param, ParamType, Thunk,
    VTable, VTableField,
};

verus! {

/// The name of the generated namespace: the fixed prefix `ability_`
/// concatenated with the interface name. Purely deterministic; no collision
/// detection is attempted.
pub fn module_name_for(interface_name: &str) -> (r: String)
    ensures
        r@ == "ability_"@ + interface_name@,
{
    String::from_str("ability_").concat(interface_name)
}

/// The name of the generated aggregate: the interface name concatenated
/// with the fixed suffix `VTable`.
pub fn vtable_name_for(interface_name: &str) -> (r: String)
    ensures
        r@ == interface_name@ + "VTable"@,
{
    interface_name.to_owned().concat("VTable")
}

/// An exact copy of an adjusted parameter.
fn clone_param(p: &Param) -> (r: Param)
    ensures
        param_view_eq(r, *p),
{
    let ty = match &p.ty {
        ParamType::ConstOpaque => ParamType::ConstOpaque,
        ParamType::MutOpaque => ParamType::MutOpaque,
        ParamType::Named(t) => ParamType::Named(t.clone()),
    };
    Param { name: p.name.clone(), ty }
}

/// An exact copy of an adjusted parameter list.
fn clone_params(ps: &Vec<Param>) -> (r: Vec<Param>)
    ensures
        params_view_eq(r@, ps@),
{
    let mut out: Vec<Param> = Vec::new();
    let mut i: usize = 0;
    while i < ps.len()
        invariant
            i <= ps.len(),
            out@.len() == i,
            forall|k: int| 0 <= k < i ==> param_view_eq(#[trigger] out@[k], #[trigger] ps@[k]),
        decreases ps.len() - i,
    {
        out.push(clone_param(&ps[i]));
        i += 1;
    }
    out
}

/// An exact copy of an optional return type.
pub fn clone_ret(r: &Option<String>) -> (c: Option<String>)
    ensures
        ret_matches(c, *r),
{
    match r {
        Option::Some(s) => Option::Some(s.clone()),
        Option::None => Option::None,
    }
}

/// Assembles the dispatch table for an interface from its thunks: one
/// function-pointer field per thunk, named after the method and typed by
/// the thunk's adjusted signature, and one constructor initializer per
/// field, in the same order — nothing more.
pub fn assemble_vtable(interface_name: &str, thunks: &Vec<Thunk>) -> (r: VTable)
    ensures
        r.interface_name@ == interface_name@,
        r.module_name@ == "ability_"@ + interface_name@,
        r.vtable_name@ == interface_name@ + "VTable"@,
        r.fields@.len() == thunks@.len(),
        r.initializers@.len() == thunks@.len(),
        forall|i: int|
            0 <= i < thunks@.len() ==> field_matches_thunk(#[trigger] r.fields@[i], thunks@[i]),
        forall|i: int|
            0 <= i < thunks@.len() ==> (#[trigger] r.initializers@[i])@ == thunks@[i].method_name@,
{
    let mut fields: Vec<VTableField> = Vec::new();
    let mut initializers: Vec<String> = Vec::new();
    let mut i: usize = 0;
    while i < thunks.len()
        invariant
            i <= thunks.len(),
            fields@.len() == i,
            initializers@.len() == i,
            forall|k: int|
                0 <= k < i ==> field_matches_thunk(#[trigger] fields@[k], thunks@[k]),
            forall|k: int|
                0 <= k < i ==> (#[trigger] initializers@[k])@ == thunks@[k].method_name@,
        decreases thunks.len() - i,
    {
        let t = &thunks[i];
        fields.push(
            VTableField {
                name: t.method_name.clone(),
                params: clone_params(&t.params),
                ret: clone_ret(&t.ret),
            },
        );
        initializers.push(t.method_name.clone());
        i += 1;
    }
    VTable {
        interface_name: interface_name.to_owned(),
        module_name: module_name_for(interface_name),
        vtable_name: vtable_name_for(interface_name),
        fields,
        initializers,
    }
}

} // verus!
