//! The data model of the transformation: raw interface definitions as the
//! front end hands them over, the classified and ABI-adjusted forms the
//! generator produces, and the spec-level predicates that say exactly what
//! each generated artifact owes to its source.

use vstd::prelude::*;

verus! {

/// How a method takes its receiver. Exactly one receiver parameter may
/// appear, and only as the first parameter; every other receiver form is
/// rejected at generation time.
#[derive(Clone, Copy, Debug, PartialEq, Eq, Structural)]
pub enum ReceiverKind {
    /// No receiver: the method is dispatched as an associated function.
    NoReceiver,
    /// The receiver is taken by const reference.
    ByConstRef,
    /// The receiver is taken by mutable reference.
    ByMutRef,
}

/// The dispatch prefix a thunk body applies before the method name: how the
/// type-erased receiver (if any) is turned back into a typed callee.
#[derive(Clone, Copy, Debug, PartialEq, Eq, Structural)]
pub enum DispatchPrefix {
    /// Invoke the method as an associated function of the concrete type.
    AssociatedFn,
    /// Cast the opaque receiver to a const pointer of the concrete type,
    /// dereference, and invoke the method on it.
    DerefConst,
    /// Cast the opaque receiver to a mutable pointer of the concrete type,
    /// dereference, and invoke the method on it.
    DerefMut,
}

/// A parameter as it stands in the raw interface definition, before
/// classification. Identifiers and type expressions are carried as verbatim
/// source text.
#[derive(Debug, PartialEq, Eq)]
pub enum RawParam {
    /// `&self`: a const-reference receiver.
    SelfConstRef,
    /// `&mut self`: a mutable-reference receiver.
    SelfMutRef,
    /// A by-value receiver — an unsupported receiver form.
    SelfByValue,
    /// Any other receiver form (pinned, indirect) — unsupported.
    SelfOther,
    /// A plain named-and-typed parameter; passed through unchanged.
    Typed { name: String, ty: String },
    /// A parameter that cannot be resolved to a plain named-and-typed form
    /// (for example a pattern-destructured parameter) — unsupported.
    Pattern,
}

/// The type of a parameter after ABI adjustment.
#[derive(Debug, PartialEq, Eq)]
pub enum ParamType {
    /// An untyped, non-owning const handle: the opaque receiver pointer of a
    /// `ByConstRef` thunk.
    ConstOpaque,
    /// The mutable counterpart, for a `ByMutRef` thunk.
    MutOpaque,
    /// A verbatim type expression, carried through unchanged.
    Named(String),
}

/// A parameter of an ABI-adjusted signature.
#[derive(Debug, PartialEq, Eq)]
pub struct Param {
    pub name: String,
    pub ty: ParamType,
}

/// One method signature of the raw interface definition. A receiver, if
/// present, stands embedded in `params`.
#[derive(Debug, PartialEq, Eq)]
pub struct MethodSig {
    pub name: String,
    pub params: Vec<RawParam>,
    /// The declared return type, verbatim; `None` for the default (unit).
    pub ret: Option<String>,
}

/// A parsed behavioral interface definition.
#[derive(Debug, PartialEq, Eq)]
pub struct InterfaceDef {
    pub name: String,
    pub methods: Vec<MethodSig>,
    /// Non-method items, verbatim. They are re-emitted with the interface
    /// but never contribute a vtable field.
    pub other_items: Vec<String>,
}

/// A top-level input item, as classified by the front end.
#[derive(Debug, PartialEq, Eq)]
pub enum InputItem {
    /// A behavioral interface definition: the generation path.
    Behavioral(InterfaceDef),
    /// A data-aggregate definition, by name: reserved, generation fails.
    DataAggregate(String),
    /// Any other top-level construct: passed through unchanged.
    Other,
}

/// A generation-time failure. All errors are fatal to the invocation that
/// raised them; no partial output is emitted.
#[derive(Debug, PartialEq, Eq)]
pub enum GenError {
    /// A method declares a receiver other than none, `&self` or `&mut self`.
    UnsupportedReceiverForm { method: String },
    /// A parameter cannot be resolved to a plain named-and-typed form; the
    /// index identifies the offending parameter.
    UnsupportedParameterForm { method: String, index: usize },
    /// The input is a data-aggregate definition: a documented gap.
    UnsupportedTopLevelKind,
}

/// One generated dispatch thunk: a forwarding function with a foreign
/// calling convention, generic over the implementing type.
#[derive(Debug, PartialEq, Eq)]
pub struct Thunk {
    pub method_name: String,
    pub receiver: ReceiverKind,
    pub prefix: DispatchPrefix,
    /// The ABI-adjusted parameter list the thunk accepts.
    pub params: Vec<Param>,
    /// The return type, forwarded unchanged; `None` for unit.
    pub ret: Option<String>,
    /// The argument expressions forwarded into the real call, in order.
    pub call_args: Vec<String>,
}

/// One field of the dispatch table: a function pointer named after its
/// method, typed by the thunk's adjusted parameters and return type.
#[derive(Debug, PartialEq, Eq)]
pub struct VTableField {
    pub name: String,
    pub params: Vec<Param>,
    pub ret: Option<String>,
}

/// The assembled dispatch table: a fixed-layout aggregate, one field per
/// method in declaration order, plus the initializers of its generic
/// constructor, in lockstep.
#[derive(Debug, PartialEq, Eq)]
pub struct VTable {
    pub interface_name: String,
    /// The namespace the generated items live in: `ability_<InterfaceName>`.
    pub module_name: String,
    /// The aggregate's name: `<InterfaceName>VTable`.
    pub vtable_name: String,
    pub fields: Vec<VTableField>,
    /// Per field, the method whose thunk the constructor binds to it.
    pub initializers: Vec<String>,
}

/// Everything generated for one behavioral interface.
#[derive(Debug, PartialEq, Eq)]
pub struct GeneratedModule {
    pub thunks: Vec<Thunk>,
    pub vtable: VTable,
}

/// The outcome of one compiler invocation that did not fail.
#[derive(Debug, PartialEq, Eq)]
pub enum CompileOutput {
    /// The interface was behavioral: re-emit it together with this module.
    Generated(GeneratedModule),
    /// The input was some other top-level construct: re-emit it unchanged.
    PassThrough,
}

/// The uniform name of the synthetic opaque receiver parameter.
pub open spec fn receiver_param_name() -> Seq<char> {
    "receiver_"@
}

/// Whether a raw parameter is some receiver form.
pub open spec fn is_receiver_form(p: RawParam) -> bool {
    ||| p is SelfConstRef
    ||| p is SelfMutRef
    ||| p is SelfByValue
    ||| p is SelfOther
}

/// The receiver kind a raw parameter list classifies to, assuming it is
/// admissible.
pub open spec fn receiver_kind_of(params: Seq<RawParam>) -> ReceiverKind {
    if params.len() > 0 && params[0] is SelfConstRef {
        ReceiverKind::ByConstRef
    } else if params.len() > 0 && params[0] is SelfMutRef {
        ReceiverKind::ByMutRef
    } else {
        ReceiverKind::NoReceiver
    }
}

/// The dispatch prefix owed for each receiver kind.
pub open spec fn prefix_for(kind: ReceiverKind) -> DispatchPrefix {
    match kind {
        ReceiverKind::NoReceiver => DispatchPrefix::AssociatedFn,
        ReceiverKind::ByConstRef => DispatchPrefix::DerefConst,
        ReceiverKind::ByMutRef => DispatchPrefix::DerefMut,
    }
}

/// Whether the parameter at position `i` is one the generator supports: a
/// reference receiver in first position, or a plain named-and-typed
/// parameter anywhere.
pub open spec fn param_admissible(p: RawParam, i: int) -> bool {
    match p {
        RawParam::SelfConstRef => i == 0,
        RawParam::SelfMutRef => i == 0,
        RawParam::SelfByValue => false,
        RawParam::SelfOther => false,
        RawParam::Typed { .. } => true,
        RawParam::Pattern => false,
    }
}

/// Whether a whole raw parameter list is supported.
pub open spec fn all_admissible(params: Seq<RawParam>) -> bool {
    forall|i: int| 0 <= i < params.len() ==> #[trigger] param_admissible(params[i], i)
}

/// Whether a whole method is supported.
pub open spec fn method_admissible(m: MethodSig) -> bool {
    all_admissible(m.params@)
}

/// Whether every method of an interface definition is supported.
pub open spec fn def_admissible(def: InterfaceDef) -> bool {
    forall|i: int| 0 <= i < def.methods.len() ==> method_admissible(#[trigger] def.methods@[i])
}

/// The error owed for the inadmissible parameter `p` at position `i` of
/// method `method`: a bad receiver form yields `UnsupportedReceiverForm`, a
/// bad parameter form yields `UnsupportedParameterForm` naming the position.
pub open spec fn error_matches(e: GenError, method: Seq<char>, p: RawParam, i: int) -> bool {
    if is_receiver_form(p) {
        &&& e matches GenError::UnsupportedReceiverForm { method: m }
        &&& m@ == method
    } else {
        &&& e matches GenError::UnsupportedParameterForm { method: m, index }
        &&& m@ == method
        &&& index == i
    }
}

/// The error a classification failure owes: it reports the first offending
/// parameter, and every parameter before it is admissible.
pub open spec fn classify_error_matches(method: Seq<char>, params: Seq<RawParam>, e: GenError) -> bool {
    exists|j: int|
        #![auto]
        0 <= j < params.len() && !param_admissible(params[j], j) && (forall|k: int|
            0 <= k < j ==> #[trigger] param_admissible(params[k], k)) && error_matches(
            e,
            method,
            params[j],
            j,
        )
}

/// `adj` carries the plain typed parameter `raw` through unchanged: same
/// name, same verbatim type.
pub open spec fn passes_through(raw: RawParam, adj: Param) -> bool {
    &&& raw matches RawParam::Typed { name, ty }
    &&& adj.name@ == name@
    &&& adj.ty matches ParamType::Named(t)
    &&& t@ == ty@
}

/// `adj` is the synthetic opaque receiver parameter for `kind`.
pub open spec fn is_receiver_param(adj: Param, kind: ReceiverKind) -> bool {
    &&& adj.name@ == receiver_param_name()
    &&& match kind {
        ReceiverKind::ByConstRef => adj.ty is ConstOpaque,
        ReceiverKind::ByMutRef => adj.ty is MutOpaque,
        ReceiverKind::NoReceiver => false,
    }
}

/// The ABI adjustment owed to a raw parameter list: with no receiver, every
/// parameter passes through in place; with one, the first parameter becomes
/// the opaque receiver and the rest pass through in place.
pub open spec fn adjusted_matches(raw: Seq<RawParam>, adj: Seq<Param>) -> bool {
    let kind = receiver_kind_of(raw);
    &&& adj.len() == raw.len()
    &&& if kind is NoReceiver {
        forall|i: int| 0 <= i < raw.len() ==> passes_through(raw[i], #[trigger] adj[i])
    } else {
        &&& is_receiver_param(adj[0], kind)
        &&& forall|i: int| 1 <= i < raw.len() ==> passes_through(raw[i], #[trigger] adj[i])
    }
}

/// The argument projection owed to an adjusted parameter list: every
/// parameter's name is forwarded in order, minus the synthetic receiver,
/// which the dispatch prefix already consumes.
pub open spec fn projected_matches(adj: Seq<Param>, kind: ReceiverKind, args: Seq<String>) -> bool {
    let skip: int = if kind is NoReceiver {
        0
    } else {
        1
    };
    &&& args.len() == adj.len() - skip
    &&& forall|i: int| 0 <= i < args.len() ==> (#[trigger] args[i])@ == adj[i + skip].name@
}

/// Two optional return types denote the same type expression.
pub open spec fn ret_matches(a: Option<String>, b: Option<String>) -> bool {
    &&& (a is Some <==> b is Some)
    &&& (a is Some ==> a.unwrap()@ == b.unwrap()@)
}

/// Everything a thunk owes to the method it dispatches: the method's name,
/// the classified receiver and its prefix, the adjusted parameter list, the
/// unchanged return type, and the projected argument list.
pub open spec fn thunk_matches(sig: MethodSig, t: Thunk) -> bool {
    &&& t.method_name@ == sig.name@
    &&& t.receiver == receiver_kind_of(sig.params@)
    &&& t.prefix == prefix_for(t.receiver)
    &&& adjusted_matches(sig.params@, t.params@)
    &&& ret_matches(t.ret, sig.ret)
    &&& projected_matches(t.params@, t.receiver, t.call_args@)
}

/// Two adjusted parameters denote the same parameter.
pub open spec fn param_view_eq(a: Param, b: Param) -> bool {
    &&& a.name@ == b.name@
    &&& match (a.ty, b.ty) {
        (ParamType::ConstOpaque, ParamType::ConstOpaque) => true,
        (ParamType::MutOpaque, ParamType::MutOpaque) => true,
        (ParamType::Named(x), ParamType::Named(y)) => x@ == y@,
        _ => false,
    }
}

/// Two adjusted parameter lists denote the same parameters.
pub open spec fn params_view_eq(a: Seq<Param>, b: Seq<Param>) -> bool {
    &&& a.len() == b.len()
    &&& forall|i: int| 0 <= i < a.len() ==> param_view_eq(#[trigger] a[i], #[trigger] b[i])
}

/// Two string sequences denote the same texts.
pub open spec fn strings_view_eq(a: Seq<String>, b: Seq<String>) -> bool {
    &&& a.len() == b.len()
    &&& forall|i: int| 0 <= i < a.len() ==> (#[trigger] a[i])@ == (#[trigger] b[i])@
}

/// A vtable field carries exactly its thunk's function-pointer type: the
/// method's name, the adjusted parameters and the return type.
pub open spec fn field_matches_thunk(f: VTableField, t: Thunk) -> bool {
    &&& f.name@ == t.method_name@
    &&& params_view_eq(f.params@, t.params@)
    &&& ret_matches(f.ret, t.ret)
}

/// Everything an assembled table owes to its interface and thunks: the
/// synthesized names, and fields and initializers in lockstep with the
/// thunks — same length, same order, one field per thunk and nothing else.
pub open spec fn vtable_matches(def: InterfaceDef, thunks: Seq<Thunk>, vt: VTable) -> bool {
    &&& vt.interface_name@ == def.name@
    &&& vt.module_name@ == "ability_"@ + def.name@
    &&& vt.vtable_name@ == def.name@ + "VTable"@
    &&& vt.fields.len() == thunks.len()
    &&& vt.initializers.len() == thunks.len()
    &&& forall|i: int|
        0 <= i < thunks.len() ==> field_matches_thunk(#[trigger] vt.fields@[i], thunks[i])
    &&& forall|i: int|
        0 <= i < thunks.len() ==> (#[trigger] vt.initializers@[i])@ == thunks[i].method_name@
}

/// Everything a generated module owes to its interface definition: one thunk
/// per method in declaration order, each matching its method, and the table
/// assembled from exactly those thunks. Non-method items contribute nothing.
pub open spec fn module_matches(def: InterfaceDef, gm: GeneratedModule) -> bool {
    &&& gm.thunks.len() == def.methods.len()
    &&& forall|i: int|
        0 <= i < def.methods.len() ==> thunk_matches(def.methods@[i], #[trigger] gm.thunks@[i])
    &&& vtable_matches(def, gm.thunks@, gm.vtable)
}

/// The error a failed interface compilation owes: it reports the first
/// method that classification rejects, with that method's own first
/// offending parameter.
pub open spec fn compile_error_matches(def: InterfaceDef, e: GenError) -> bool {
    exists|j: int|
        #![auto]
        0 <= j < def.methods.len() && !method_admissible(def.methods@[j]) && (forall|k: int|
            0 <= k < j ==> method_admissible(#[trigger] def.methods@[k]))
            && classify_error_matches(def.methods@[j].name@, def.methods@[j].params@, e)
}

} // verus!
