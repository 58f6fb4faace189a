//! Evaluating source text on the host.
//!
//! The host's own evaluation function is resolved once and cached; each
//! evaluation is then a single-argument call on it, with the source interned
//! as a host string first.

use vstd::prelude::*;

use crate::js_object::JSObject;
use crate::js_object::JSString;
use crate::js_object::ProxyCall;
use crate::JSFunction;

verus! {

/// The call the edge performs to evaluate `source` through the cached
/// evaluation function: a one-argument call with a null receiver, passing
/// the interned source text.
pub fn eval(eval_function: &JSFunction, source: &JSString) -> (r: ProxyCall)
    requires
        eval_function.is_initialized(),
        source.has_handle(),
    ensures
        (r matches ProxyCall::CallWithArgs { function, this, args }
            && function == eval_function.function_spec().index_spec()
            && this == 0
            && args@ == seq![source.object_spec().index_spec()]),
{
    let null = JSObject::null();
    let call = eval_function.function_object().call_1_arg(&null, source.get_js_object());
    call
}

} // verus!
