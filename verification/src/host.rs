//! The one narrow channel between the module and its host.
//!
//! Every operation the module asks of the host is a synchronous call naming a
//! registered library, a command number, and a word payload, and returning a
//! single 32-bit word; `0` is the reserved "no result" answer.  A library is
//! registered by sending its source text to the reserved bootstrap library id
//! and receiving back the id to use for all of its commands from then on.

use vstd::prelude::*;

verus! {

/// Library id reserved for registering new host-side libraries.
pub const BOOTSTRAP_LIBRARY_ID: u32 = 0;

/// The reserved result word meaning the host produced no result.
pub const NO_RESULT: u32 = 0;

/// One outbound call for the edge to perform: synchronous, answered with a
/// single word.
pub struct HostCall {
    pub library_id: u32,
    pub command: u32,
    pub words: Vec<u32>,
}

/// The registration the edge must perform to declare a host-side library:
/// the source text travels to [`BOOTSTRAP_LIBRARY_ID`] and the answer is the
/// library id to use thereafter.
pub struct LibraryRegistration {
    pub source: String,
}

/// A handle to a host-side command library.
///
/// Starts out null; once the edge has sent the registration and handed the
/// answered id back, commands can be addressed to it.
pub struct KWasmLibrary {
    id: u32,
}

impl KWasmLibrary {
    /// The library id the host answered, or `0` before registration.
    pub closed spec fn id_spec(&self) -> u32 {
        self.id
    }

    /// True once the host has answered a usable (non-null) library id.
    pub open spec fn is_registered(&self) -> bool {
        self.id_spec() != 0
    }

    /// A handle not yet backed by any registered library.
    pub fn null() -> (r: Self)
        ensures
            !r.is_registered(),
    {
        Self { id: 0 }
    }

    pub fn id(&self) -> (r: u32)
        ensures
            r == self.id_spec(),
    {
        self.id
    }

    /// The registration the edge must send to the bootstrap library.
    pub fn registration_request(source: &str) -> (r: LibraryRegistration)
        ensures
            r.source@ == source@,
    {
        LibraryRegistration { source: source.to_owned() }
    }

    /// Adopts the id the host answered the registration with; `0` means the
    /// registration failed and the handle stays null.
    pub fn complete_registration(&mut self, id: u32)
        ensures
            final(self).id_spec() == id,
            final(self).is_registered() <==> id != 0,
    {
        self.id = id;
    }

    /// A command with no payload, addressed to this library.
    pub fn message(&self, command: u32) -> (r: HostCall)
        requires
            self.is_registered(),
        ensures
            r.library_id == self.id_spec(),
            r.command == command,
            r.words@ == Seq::<u32>::empty(),
    {
        let words: Vec<u32> = Vec::new();
        assert(words@ =~= Seq::<u32>::empty());
        HostCall { library_id: self.id, command, words }
    }

    /// A command carrying a word payload, addressed to this library.
    pub fn message_with_slice(&self, command: u32, data: &Vec<u32>) -> (r: HostCall)
        requires
            self.is_registered(),
        ensures
            r.library_id == self.id_spec(),
            r.command == command,
            r.words@ == data@,
    {
        HostCall { library_id: self.id, command, words: crate::js_object::copy_words(data) }
    }
}

/// Interprets the word a host call answered: the reserved [`NO_RESULT`]
/// sentinel becomes an absent result, never an error or a crash.
pub fn check_host_result(result: u32) -> (r: Option<u32>)
    ensures
        result == NO_RESULT <==> r is None,
        result != NO_RESULT ==> (r matches Some(v) && v == result),
{
    if result == NO_RESULT {
        None
    } else {
        Some(result)
    }
}

} // verus!
