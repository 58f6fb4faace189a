//! Logging through the host's console, with lazily resolved handles.
//!
//! The console object and its two reporting functions live on the host; the
//! module resolves them once per context, caches the three handles, and from
//! then on each message is one proxy call.  What the module itself computes
//! is verified here: which stream a message goes to, the exact text handed
//! over, and the lazy-initialization decision.

use vstd::prelude::*;

use crate::js_object::JSObject;
use crate::js_object::JSString;
use crate::js_object::ProxyCall;

verus! {

/// Which of the console's two reporting functions a message goes to.
#[derive(Clone, Copy, PartialEq, Eq, Structural)]
pub enum ConsoleStream {
    Log,
    Error,
}

/// A message ready to cross to the host: the stream and the exact text.
pub struct ConsoleMessage {
    pub stream: ConsoleStream,
    pub text: String,
}

/// What a console method asks of the edge: resolve the handles first, or
/// perform the one call that prints the message.
pub enum ConsoleAction {
    /// The handles are not cached yet; resolve them and install them.
    NeedsInitialization,
    /// Forward this call to the host's proxy.
    Call(ProxyCall),
}

/// One context's cached handles to the host console and its two reporting
/// functions.
pub struct ConsoleInner {
    console_js_object: JSObject,
    log_js_object: JSObject,
    error_js_object: JSObject,
}

impl ConsoleInner {
    pub closed spec fn console_spec(&self) -> JSObject {
        self.console_js_object
    }

    pub closed spec fn log_spec(&self) -> JSObject {
        self.log_js_object
    }

    pub closed spec fn error_spec(&self) -> JSObject {
        self.error_js_object
    }

    /// True once the console handle has been resolved.
    pub open spec fn is_initialized(&self) -> bool {
        !self.console_spec().is_null_spec()
    }

    pub fn new() -> (r: Self)
        ensures
            !r.is_initialized(),
    {
        Self {
            console_js_object: JSObject::null(),
            error_js_object: JSObject::null(),
            log_js_object: JSObject::null(),
        }
    }

    /// Caches the three handles the edge resolved: the console object and
    /// its two reporting functions, looked up as properties of the global
    /// scope's console.
    pub fn initialize(&mut self, console: JSObject, log_fn: JSObject, error_fn: JSObject)
        requires
            !console.is_null_spec(),
        ensures
            final(self).console_spec() == console,
            final(self).log_spec() == log_fn,
            final(self).error_spec() == error_fn,
            final(self).is_initialized(),
    {
        self.console_js_object = console;
        self.log_js_object = log_fn;
        self.error_js_object = error_fn;
    }

    /// The message `string` produces on the ordinary stream.
    pub fn log(&self, string: &str) -> (r: ConsoleMessage)
        ensures
            r.stream == ConsoleStream::Log,
            r.text@ == string@,
    {
        ConsoleMessage { stream: ConsoleStream::Log, text: string.to_owned() }
    }

    /// The message `string` produces on the error stream.
    pub fn log_error(&self, string: &str) -> (r: ConsoleMessage)
        ensures
            r.stream == ConsoleStream::Error,
            r.text@ == string@,
    {
        ConsoleMessage { stream: ConsoleStream::Error, text: string.to_owned() }
    }

    /// Prints an already-interned string on the ordinary stream: one call on
    /// the cached log function, unless the handles still must be resolved.
    pub fn log_js_string(&self, js_string: &JSString) -> (r: ConsoleAction)
        requires
            js_string.has_handle(),
        ensures
            !self.is_initialized() ==> r is NeedsInitialization,
            self.is_initialized() ==> (r matches ConsoleAction::Call(call)
                && call matches ProxyCall::CallWithArgs { function, this, args }
                && function == self.log_spec().index_spec()
                && this == self.console_spec().index_spec()
                && args@ == seq![js_string.object_spec().index_spec()]),
    {
        if self.console_js_object.is_null() {
            ConsoleAction::NeedsInitialization
        } else {
            ConsoleAction::Call(
                self.log_js_object.call_1_arg(&self.console_js_object, js_string.get_js_object()),
            )
        }
    }

    /// Prints an already-interned string on the error stream.
    pub fn error_js_string(&self, js_string: &JSString) -> (r: ConsoleAction)
        requires
            js_string.has_handle(),
        ensures
            !self.is_initialized() ==> r is NeedsInitialization,
            self.is_initialized() ==> (r matches ConsoleAction::Call(call)
                && call matches ProxyCall::CallWithArgs { function, this, args }
                && function == self.error_spec().index_spec()
                && this == self.console_spec().index_spec()
                && args@ == seq![js_string.object_spec().index_spec()]),
    {
        if self.console_js_object.is_null() {
            ConsoleAction::NeedsInitialization
        } else {
            ConsoleAction::Call(
                self.error_js_object.call_1_arg(&self.console_js_object, js_string.get_js_object()),
            )
        }
    }
}

/// The message `string` produces on the ordinary console stream.
pub fn log(string: &str) -> (r: ConsoleMessage)
    ensures
        r.stream == ConsoleStream::Log,
        r.text@ == string@,
{
    ConsoleMessage { stream: ConsoleStream::Log, text: string.to_owned() }
}

/// The message `string` produces on the error console stream.
pub fn log_error(string: &str) -> (r: ConsoleMessage)
    ensures
        r.stream == ConsoleStream::Error,
        r.text@ == string@,
{
    ConsoleMessage { stream: ConsoleStream::Error, text: string.to_owned() }
}

/// Prints an already-interned string through the given context console.
pub fn log_js_string(console: &ConsoleInner, js_string: &JSString) -> (r: ConsoleAction)
    requires
        js_string.has_handle(),
    ensures
        !console.is_initialized() ==> r is NeedsInitialization,
        console.is_initialized() ==> (r matches ConsoleAction::Call(call)
            && call matches ProxyCall::CallWithArgs { function, this, args }
            && function == console.log_spec().index_spec()
            && this == console.console_spec().index_spec()
            && args@ == seq![js_string.object_spec().index_spec()]),
{
    console.log_js_string(js_string)
}

} // verus!
