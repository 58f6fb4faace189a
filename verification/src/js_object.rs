//! Numeric handles standing for objects owned by the host.
//!
//! The host never shares object representations with the module; it hands out
//! `u32` indices into its own table.  Index `0` is the reserved "no object"
//! sentinel and index `1` is the host's global scope.  This module keeps the
//! handle bookkeeping that the module itself is responsible for — null checks,
//! handle swaps, interpreting a call's result — and describes, as plain
//! values, each call the unverified edge must forward to the host's proxy.

use vstd::prelude::*;

verus! {

/// Handle index of the host's global scope object.
pub const JS_SELF_INDEX: u32 = 1;

/// A handle to an object living on the host side.
pub struct JSObject {
    index: u32,
}

/// One call for the edge to forward to the host's object proxy, with every
/// argument already reduced to a plain value.
pub enum ProxyCall {
    /// Look a property up on an object; the property name is itself a host
    /// string object.
    GetProperty { object: u32, property: u32 },
    /// Call a function object with object-handle arguments.
    CallWithArgs { function: u32, this: u32, args: Vec<u32> },
    /// Call a function object passing each word through unchanged.
    CallWithArgsRaw { function: u32, this: u32, args: Vec<u32> },
    /// Intern a new host string built from the given text.
    NewString { text: String },
    /// Release the host's table entry for an object handle.
    FreeObject { object: u32 },
    /// Read an object's value as a `u32`.
    GetValueU32 { object: u32 },
}

impl JSObject {
    /// The handle's index in the host's object table.
    pub closed spec fn index_spec(&self) -> u32 {
        self.index
    }

    /// The reserved index `0`: no object.
    pub open spec fn is_null_spec(&self) -> bool {
        self.index_spec() == 0
    }

    /// The null handle.
    pub fn null() -> (r: Self)
        ensures
            r.is_null_spec(),
    {
        Self { index: 0 }
    }

    /// The handle of the host's global scope.
    pub fn js_self() -> (r: Self)
        ensures
            r.index_spec() == JS_SELF_INDEX,
    {
        Self { index: JS_SELF_INDEX }
    }

    /// Wraps an index the host handed out.
    pub fn new_raw(index: u32) -> (r: Self)
        ensures
            r.index_spec() == index,
    {
        Self { index }
    }

    pub fn index(&self) -> (r: u32)
        ensures
            r == self.index_spec(),
    {
        self.index
    }

    pub fn is_null(&self) -> (r: bool)
        ensures
            r == self.is_null_spec(),
    {
        self.index == 0
    }

    /// Exchanges the two handles' indices.
    pub fn swap(&mut self, object: &mut JSObject)
        ensures
            final(self).index_spec() == old(object).index_spec(),
            final(object).index_spec() == old(self).index_spec(),
    {
        let mine = self.index;
        self.index = object.index;
        object.index = mine;
    }

    /// Interprets a call's raw result: `0` means the host produced no object.
    pub fn check_result(result: u32) -> (r: Option<JSObject>)
        ensures
            result == 0 <==> r is None,
            result != 0 ==> (r matches Some(o) && o.index_spec() == result),
    {
        if result == 0 {
            None
        } else {
            Some(JSObject { index: result })
        }
    }

    /// A property lookup for the edge to perform; the property name must
    /// already be interned as a host string.
    pub fn get_property(&self, property: &JSObject) -> (r: ProxyCall)
        ensures
            r == (ProxyCall::GetProperty {
                object: self.index_spec(),
                property: property.index_spec(),
            }),
    {
        ProxyCall::GetProperty { object: self.index, property: property.index }
    }

    /// A call passing each word through as a raw argument.
    pub fn call_raw(&self, this: &JSObject, args: &Vec<u32>) -> (r: ProxyCall)
        ensures
            (r matches ProxyCall::CallWithArgsRaw { function, this: t, args: a }
                && function == self.index_spec()
                && t == this.index_spec()
                && a@ == args@),
    {
        ProxyCall::CallWithArgsRaw {
            function: self.index,
            this: this.index,
            args: copy_words(args),
        }
    }

    /// A call with no arguments.
    pub fn call(&self, this: &JSObject) -> (r: ProxyCall)
        ensures
            (r matches ProxyCall::CallWithArgs { function, this: t, args: a }
                && function == self.index_spec()
                && t == this.index_spec()
                && a@ == Seq::<u32>::empty()),
    {
        let args: Vec<u32> = Vec::new();
        assert(args@ =~= Seq::<u32>::empty());
        ProxyCall::CallWithArgs { function: self.index, this: this.index, args }
    }

    /// A call with one object-handle argument.
    pub fn call_1_arg(&self, this: &JSObject, argument: &JSObject) -> (r: ProxyCall)
        ensures
            (r matches ProxyCall::CallWithArgs { function, this: t, args: a }
                && function == self.index_spec()
                && t == this.index_spec()
                && a@ == seq![argument.index_spec()]),
    {
        let mut args: Vec<u32> = Vec::new();
        args.push(argument.index());
        assert(args@ =~= seq![argument.index_spec()]);
        ProxyCall::CallWithArgs { function: self.index, this: this.index, args }
    }

    /// A call with two object-handle arguments.
    pub fn call_2_arg(&self, this: &JSObject, arg0: &JSObject, arg1: &JSObject) -> (r: ProxyCall)
        ensures
            (r matches ProxyCall::CallWithArgs { function, this: t, args: a }
                && function == self.index_spec()
                && t == this.index_spec()
                && a@ == seq![arg0.index_spec(), arg1.index_spec()]),
    {
        let mut args: Vec<u32> = Vec::new();
        args.push(arg0.index());
        args.push(arg1.index());
        assert(args@ =~= seq![arg0.index_spec(), arg1.index_spec()]);
        ProxyCall::CallWithArgs { function: self.index, this: this.index, args }
    }

    /// The release the edge performs when it is done with this handle, so
    /// the host can drop its table entry.
    pub fn free_request(&self) -> (r: ProxyCall)
        ensures
            r == (ProxyCall::FreeObject { object: self.index_spec() }),
    {
        ProxyCall::FreeObject { object: self.index }
    }

    /// The read the edge performs to fetch this object's value as a `u32`.
    pub fn get_value_u32(&self) -> (r: ProxyCall)
        ensures
            r == (ProxyCall::GetValueU32 { object: self.index_spec() }),
    {
        ProxyCall::GetValueU32 { object: self.index }
    }
}

/// Copies a word vector element by element.
pub(crate) fn copy_words(words: &Vec<u32>) -> (r: Vec<u32>)
    ensures
        r@ == words@,
{
    let mut out: Vec<u32> = Vec::new();
    let mut i: usize = 0;
    while i < words.len()
        invariant
            i <= words.len(),
            out@ == words@.subrange(0, i as int),
        decreases words.len() - i,
    {
        out.push(words[i]);
        assert(out@ =~= words@.subrange(0, i + 1 as int));
        i = i + 1;
    }
    assert(out@ =~= words@);
    out
}

/// Text destined for the host together with its lazily interned handle.
///
/// The handle starts out null; the edge performs the [`ProxyCall::NewString`]
/// this type describes and installs the resulting handle, after which the
/// string can be passed to host calls by index.
pub struct JSString {
    text: String,
    js_object: JSObject,
}

impl JSString {
    /// The text the host string is built from.
    pub closed spec fn text_spec(&self) -> Seq<char> {
        self.text@
    }

    /// The interned handle; null until installed.
    pub closed spec fn object_spec(&self) -> JSObject {
        self.js_object
    }

    /// True once the host has interned the text and the handle is cached.
    pub open spec fn has_handle(&self) -> bool {
        !self.object_spec().is_null_spec()
    }

    pub fn new(string: &str) -> (r: Self)
        ensures
            r.text_spec() == string@,
            !r.has_handle(),
    {
        JSString { text: string.to_owned(), js_object: JSObject::null() }
    }

    pub fn new_from_string(string: String) -> (r: Self)
        ensures
            r.text_spec() == string@,
            !r.has_handle(),
    {
        JSString { text: string, js_object: JSObject::null() }
    }

    /// Whether the edge still has to intern the text.
    pub fn needs_handle(&self) -> (r: bool)
        ensures
            r == !self.has_handle(),
    {
        self.js_object.is_null()
    }

    /// The interning request the edge must perform to obtain the handle.
    pub fn creation_request(&self) -> (r: ProxyCall)
        ensures
            r matches ProxyCall::NewString { text } && text@ == self.text_spec(),
    {
        ProxyCall::NewString { text: self.text.clone() }
    }

    /// Caches the handle of the interned host string.
    pub fn install_handle(&mut self, object: JSObject)
        requires
            !object.is_null_spec(),
        ensures
            final(self).text_spec() == old(self).text_spec(),
            final(self).object_spec() == object,
            final(self).has_handle(),
    {
        self.js_object = object;
    }

    /// The cached handle.
    pub fn get_js_object(&self) -> (r: &JSObject)
        requires
            self.has_handle(),
        ensures
            r == self.object_spec(),
    {
        &self.js_object
    }
}

} // verus!
