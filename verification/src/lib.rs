//! Coordination primitives for a module that runs inside a host event loop
//! and talks to it only through narrow numeric-handle calls.
//!
//! The host owns the event loop and every asynchronous primitive; the module
//! owns its linear memory and wants to run concurrent workers and await
//! host-produced values without ever blocking.  This crate models and verifies
//! the state machines that make that possible: the scratch buffer the host
//! writes inbound bytes into, the host call channel and library registration,
//! the completion bridge that suspends a task around a host call and resumes
//! it when the host calls back with a correlation token, and the worker
//! lifecycle manager that hands a fresh stack and thread-local-storage region
//! to each spawned worker and reclaims them when the worker is done.
//!
//! Everything that crosses the boundary is a plain value (an integer handle, a
//! command number, a byte or word payload); the unverified edge that actually
//! performs the calls lives outside this crate and simply carries these values
//! back and forth.

use vstd::prelude::*;

pub mod console;
pub mod eval;
pub mod fetch;
pub mod host;
pub mod js_object;
pub mod scratch;
pub mod web_worker;

verus! {

use crate::js_object::JSObject;
use crate::js_object::ProxyCall;

/// A host-side function obtained lazily by evaluating a stored source string.
///
/// The object handle starts out null; the edge evaluates `source` once, hands
/// the resulting handle back through [`JSFunction::install`], and from then on
/// calls go straight to the cached handle.
pub struct JSFunction {
    source: String,
    function: JSObject,
}

impl JSFunction {
    /// The source text the function will be built from.
    pub closed spec fn source_spec(&self) -> Seq<char> {
        self.source@
    }

    /// The cached function handle; null until installed.
    pub closed spec fn function_spec(&self) -> JSObject {
        self.function
    }

    /// True once a non-null function handle has been installed.
    pub open spec fn is_initialized(&self) -> bool {
        !self.function_spec().is_null_spec()
    }

    pub fn new(source: String) -> (r: Self)
        ensures
            r.source_spec() == source@,
            !r.is_initialized(),
    {
        Self { source, function: JSObject::null() }
    }

    /// Whether the edge still has to evaluate the source to obtain the handle.
    pub fn check_initialized(&self) -> (r: bool)
        ensures
            r == !self.is_initialized(),
    {
        self.function.is_null()
    }

    /// The source the edge must evaluate to produce the function handle.
    pub fn initialization_source(&self) -> (r: &String)
        ensures
            r@ == self.source_spec(),
    {
        &self.source
    }

    /// Caches the evaluated function handle.
    pub fn install(&mut self, function: JSObject)
        requires
            !function.is_null_spec(),
        ensures
            final(self).source_spec() == old(self).source_spec(),
            final(self).function_spec() == function,
            final(self).is_initialized(),
    {
        self.function = function;
    }

    /// The cached function handle.
    pub fn function_object(&self) -> (r: &JSObject)
        requires
            self.is_initialized(),
        ensures
            r == self.function_spec(),
    {
        &self.function
    }

    /// The call the edge must perform: each word is passed as a separate raw
    /// argument to the function.
    pub fn call_raw(&self, this: &JSObject, args: &Vec<u32>) -> (r: ProxyCall)
        requires
            self.is_initialized(),
        ensures
            (r matches ProxyCall::CallWithArgsRaw { function, this: t, args: a }
                && function == self.function_spec().index_spec()
                && t == this.index_spec()
                && a@ == args@),
    {
        self.function.call_raw(this, args)
    }
}

} // verus!
