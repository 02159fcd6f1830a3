//! The receiver classifier: inspects a method's raw parameter list,
//! determines its receiver kind, and produces the ABI-adjusted parameter
//! list together with the dispatch prefix the thunk body must apply.

use vstd::prelude::*;
use vstd::string::StringExecFns;

use crate::model::{
    adjusted_matches, all_admissible, classify_error_matches, is_receiver_param,
    param_admissible, passes_through, prefix_for, receiver_kind_of, receiver_param_name,
    DispatchPrefix, GenError, Param, ParamType, RawParam, ReceiverKind,
};

verus! {

/// The uniform name given to the synthetic opaque receiver parameter.
fn receiver_ident() -> (r: String)
    ensures
        r@ == receiver_param_name(),
{
    String::from_str("receiver_")
}

/// Classifies a method's raw parameter list.
///
/// On success it returns the ABI-adjusted parameter list (a reference
/// receiver, if any, becomes the opaque `receiver_` pointer of the matching
/// mutability; every other parameter passes through unchanged, preserving
/// names, types and order), the receiver kind, and the dispatch prefix the
/// thunk must apply. It succeeds exactly on supported parameter lists; any
/// other receiver form, a receiver outside first position, or a parameter
/// with no plain name-and-type form is refused with the error owed to the
/// first offending parameter, and nothing is emitted.
pub fn classify_receiver(method_name: &str, params: &Vec<RawParam>) -> (r: Result<
    (Vec<Param>, ReceiverKind, DispatchPrefix),
    GenError,
>)
    ensures
        r is Ok <==> all_admissible(params@),
        r matches Ok(out) ==> adjusted_matches(params@, out.0@) && out.1 == receiver_kind_of(
            params@,
        ) && out.2 == prefix_for(out.1),
        r matches Err(e) ==> classify_error_matches(method_name@, params@, e),
{
    let n = params.len();
    let mut adjusted: Vec<Param> = Vec::new();
    let mut kind = ReceiverKind::NoReceiver;
    let mut i: usize = 0;
    while i < n
        invariant
            n == params@.len(),
            i <= n,
            adjusted@.len() == i,
            forall|k: int| 0 <= k < i ==> #[trigger] param_admissible(params@[k], k),
            i == 0 ==> kind is NoReceiver,
            i > 0 ==> kind == receiver_kind_of(params@),
            kind is NoReceiver ==> forall|k: int|
                0 <= k < i ==> passes_through(params@[k], #[trigger] adjusted@[k]),
            kind !is NoReceiver ==> i > 0 && is_receiver_param(adjusted@[0], kind),
            kind !is NoReceiver ==> forall|k: int|
                1 <= k < i ==> passes_through(params@[k], #[trigger] adjusted@[k]),
        decreases n - i,
    {
        match &params[i] {
            RawParam::SelfConstRef => {
                if i == 0 {
                    kind = ReceiverKind::ByConstRef;
                    adjusted.push(Param { name: receiver_ident(), ty: ParamType::ConstOpaque });
                } else {
                    let e = GenError::UnsupportedReceiverForm { method: method_name.to_owned() };
                    proof {
                        assert(classify_error_matches(method_name@, params@, e)) by {
                            assert(!param_admissible(params@[i as int], i as int));
                        }
                    }
                    return Err(e);
                }
            },
            RawParam::SelfMutRef => {
                if i == 0 {
                    kind = ReceiverKind::ByMutRef;
                    adjusted.push(Param { name: receiver_ident(), ty: ParamType::MutOpaque });
                } else {
                    let e = GenError::UnsupportedReceiverForm { method: method_name.to_owned() };
                    proof {
                        assert(classify_error_matches(method_name@, params@, e)) by {
                            assert(!param_admissible(params@[i as int], i as int));
                        }
                    }
                    return Err(e);
                }
            },
            RawParam::SelfByValue => {
                let e = GenError::UnsupportedReceiverForm { method: method_name.to_owned() };
                proof {
                    assert(classify_error_matches(method_name@, params@, e)) by {
                        assert(!param_admissible(params@[i as int], i as int));
                    }
                }
                return Err(e);
            },
            RawParam::SelfOther => {
                let e = GenError::UnsupportedReceiverForm { method: method_name.to_owned() };
                proof {
                    assert(classify_error_matches(method_name@, params@, e)) by {
                        assert(!param_admissible(params@[i as int], i as int));
                    }
                }
                return Err(e);
            },
            RawParam::Typed { name, ty } => {
                adjusted.push(Param { name: name.clone(), ty: ParamType::Named(ty.clone()) });
            },
            RawParam::Pattern => {
                let e = GenError::UnsupportedParameterForm {
                    method: method_name.to_owned(),
                    index: i,
                };
                proof {
                    assert(classify_error_matches(method_name@, params@, e)) by {
                        assert(!param_admissible(params@[i as int], i as int));
                    }
                }
                return Err(e);
            },
        }
        i += 1;
    }
    let prefix = match kind {
        ReceiverKind::NoReceiver => DispatchPrefix::AssociatedFn,
        ReceiverKind::ByConstRef => DispatchPrefix::DerefConst,
        ReceiverKind::ByMutRef => DispatchPrefix::DerefMut,
    };
    Ok((adjusted, kind, prefix))
}

} // verus!
