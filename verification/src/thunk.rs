//! The argument projector and the thunk synthesizer: from a classified
//! method to the forwarded argument list and the complete dispatch thunk.

use vstd::prelude::*;

use crate::classify::classify_receiver;
use crate::model::{
    all_admissible, classify_error_matches, projected_matches, thunk_matches, GenError,
    MethodSig, Param, ReceiverKind, Thunk,
};
use crate::vtable::clone_ret;

verus! {

/// Projects the argument expressions a thunk forwards into the real call:
/// the name of every adjusted parameter, in order, except the synthetic
/// receiver (if any), which the dispatch prefix has already consumed. This
/// leaves a one-to-one correspondence between the forwarded arguments and
/// the parameters the underlying method declares.
pub fn project_args(params: &Vec<Param>, kind: ReceiverKind) -> (r: Vec<String>)
    requires
        kind !is NoReceiver ==> params@.len() >= 1,
    ensures
        projected_matches(params@, kind, r@),
{
    let skip: usize = match kind {
        ReceiverKind::NoReceiver => 0,
        _ => 1,
    };
    let mut args: Vec<String> = Vec::new();
    let mut i: usize = skip;
    while i < params.len()
        invariant
            skip <= i <= params@.len() || (skip > params@.len() && i == skip),
            skip == if kind is NoReceiver { 0int } else { 1int },
            params@.len() >= skip,
            args@.len() == i - skip,
            forall|k: int|
                0 <= k < args@.len() ==> (#[trigger] args@[k])@ == params@[k + skip].name@,
        decreases params@.len() - i,
    {
        args.push(params[i].name.clone());
        i += 1;
    }
    args
}

/// Synthesizes the dispatch thunk for one method: classifies the receiver,
/// adjusts the parameter list, projects the forwarded arguments, and keeps
/// the declared return type unchanged — the result is forwarded as is, with
/// no wrapping. It succeeds exactly where classification does, and on
/// failure hands that failure through untouched.
pub fn synthesize_thunk(sig: &MethodSig) -> (r: Result<Thunk, GenError>)
    ensures
        r is Ok <==> all_admissible(sig.params@),
        r matches Ok(t) ==> thunk_matches(*sig, t),
        r matches Err(e) ==> classify_error_matches(sig.name@, sig.params@, e),
{
    let (params, kind, prefix) = match classify_receiver(sig.name.as_str(), &sig.params) {
        Ok(out) => out,
        Err(e) => {
            return Err(e);
        },
    };
    let call_args = project_args(&params, kind);
    Ok(
        Thunk {
            method_name: sig.name.clone(),
            receiver: kind,
            prefix,
            params,
            ret: clone_ret(&sig.ret),
            call_args,
        },
    )
}

} // verus!
