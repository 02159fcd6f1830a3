//! The interface compiler: the entry point that classifies a top-level
//! input and, on the behavioral path, drives classification, projection,
//! thunk synthesis and table assembly in sequence.

use vstd::prelude::*;
use vstd::string::StringExecFns;

use crate::model::{
    compile_error_matches, def_admissible, method_admissible, module_matches, thunk_matches,
    CompileOutput, GenError, GeneratedModule, InputItem, InterfaceDef, Thunk,
};
use crate::thunk::synthesize_thunk;
use crate::vtable::assemble_vtable;

verus! {

/// Compiles one behavioral interface definition into its generated module:
/// one thunk per method, in declaration order, and the dispatch table
/// assembled from exactly those thunks. Non-method items contribute no
/// field. It succeeds exactly when every method is supported; the first
/// method that classification rejects aborts the whole generation with that
/// method's error, and no partial module is emitted.
pub fn compile_trait(def: &InterfaceDef) -> (r: Result<GeneratedModule, GenError>)
    ensures
        r is Ok <==> def_admissible(*def),
        r matches Ok(gm) ==> module_matches(*def, gm),
        r matches Err(e) ==> compile_error_matches(*def, e),
{
    let mut thunks: Vec<Thunk> = Vec::new();
    let mut i: usize = 0;
    while i < def.methods.len()
        invariant
            i <= def.methods@.len(),
            thunks@.len() == i,
            forall|k: int|
                0 <= k < i ==> thunk_matches(
                    def.methods@[k],
                    #[trigger] thunks@[k],
                ),
            forall|k: int| 0 <= k < i ==> method_admissible(#[trigger] def.methods@[k]),
        decreases def.methods@.len() - i,
    {
        match synthesize_thunk(&def.methods[i]) {
            Ok(t) => {
                thunks.push(t);
            },
            Err(e) => {
                proof {
                    assert(compile_error_matches(*def, e)) by {
                        assert(!method_admissible(def.methods@[i as int]));
                    }
                }
                return Err(e);
            },
        }
        i += 1;
    }
    let vtable = assemble_vtable(def.name.as_str(), &thunks);
    Ok(GeneratedModule { thunks, vtable })
}

/// The entry point: receives one classified top-level input item.
///
/// A behavioral interface definition is compiled into its generated module,
/// to be re-emitted beside the unchanged interface; a data-aggregate
/// definition fails unconditionally, whatever its shape, as a documented
/// gap; any other construct passes through unchanged, with no generation
/// performed.
pub fn interface(item: &InputItem) -> (r: Result<CompileOutput, GenError>)
    ensures
        *item matches InputItem::Behavioral(def) ==> ((r is Ok) <==> def_admissible(def)),
        *item matches InputItem::Behavioral(def) ==> (r matches Ok(out) ==> (out
            matches CompileOutput::Generated(gm) && module_matches(def, gm))),
        *item matches InputItem::Behavioral(def) ==> (r matches Err(e)
            ==> compile_error_matches(def, e)),
        *item is DataAggregate ==> (r matches Err(e) && e is UnsupportedTopLevelKind),
        *item is Other ==> (r matches Ok(out) && out is PassThrough),
{
    match item {
        InputItem::Behavioral(def) => match compile_trait(def) {
            Ok(gm) => Ok(CompileOutput::Generated(gm)),
            Err(e) => Err(e),
        },
        InputItem::DataAggregate(_) => Err(GenError::UnsupportedTopLevelKind),
        InputItem::Other => Ok(CompileOutput::PassThrough),
    }
}

impl GenError {
    /// The diagnostic text of this failure, as surfaced to the invoking
    /// toolchain. The unimplemented data-aggregate path reports exactly
    /// `not implemented`.
    pub fn message(&self) -> (r: String)
        ensures
            *self matches GenError::UnsupportedReceiverForm { method } ==> r@
                == "unsupported receiver form in method `"@ + method@ + "`"@,
            *self matches GenError::UnsupportedParameterForm { method, .. } ==> r@
                == "unsupported parameter form in method `"@ + method@ + "`"@,
            *self is UnsupportedTopLevelKind ==> r@ == "not implemented"@,
    {
        match self {
            GenError::UnsupportedReceiverForm { method } => String::from_str(
                "unsupported receiver form in method `",
            ).concat(method.as_str()).concat("`"),
            GenError::UnsupportedParameterForm { method, .. } => String::from_str(
                "unsupported parameter form in method `",
            ).concat(method.as_str()).concat("`"),
            GenError::UnsupportedTopLevelKind => String::from_str("not implemented"),
        }
    }
}

} // verus!
