//! The callback descriptor through which received packets leave the server.
//!
//! A descriptor pairs an opaque context handle with the address of a dispatch
//! function. Both are plain machine words here: the server never looks behind
//! them, it only decides whether a call is due and with which arguments.

use vstd::prelude::*;

verus! {

/// A context handle paired with an optional dispatch function.
///
/// Whoever registers a descriptor guarantees that the function may be called
/// from the worker thread for as long as the server runs.
#[derive(Clone, Copy, Debug, PartialEq, Eq)]
pub struct PacketCallback {
    /// Opaque context handed back to the dispatch function on every call.
    pub userdata: usize,
    /// Address of the dispatch function, if one is registered.
    pub func: Option<usize>,
}

/// One call of a dispatch function that is due.
#[derive(Debug, PartialEq, Eq)]
pub struct Invocation {
    /// Address of the function to call; never zero.
    pub func: usize,
    /// Context to pass as the first argument.
    pub userdata: usize,
    /// The packet to pass as the second argument.
    pub payload: Vec<u8>,
}

impl PacketCallback {
    /// The dispatch function that may be called: a registered address other
    /// than zero.
    pub open spec fn spec_dispatch_fn(self) -> Option<usize> {
        match self.func {
            Some(f) if f != 0 => Some(f),
            _ => None,
        }
    }

    /// Whether `call` is what delivering `payload` through this descriptor
    /// amounts to: one call with this context and these bytes if a dispatch
    /// function is present, no call otherwise.
    pub open spec fn delivers(self, payload: Seq<u8>, call: Option<Invocation>) -> bool {
        match self.dispatch_fn() {
            Some(f) => call matches Some(c) && c.func == f && c.userdata == self.userdata
                && c.payload@ == payload,
            None => call is None,
        }
    }

    /// Builds a descriptor from two raw machine words, reading a zero
    /// function address as "no function".
    pub fn new(userdata: usize, func: usize) -> (callback: PacketCallback)
        ensures
            callback.userdata == userdata,
            callback.func == (if func == 0 {
                None
            } else {
                Some(func)
            }),
            callback.dispatch_fn() == callback.func,
    {
        PacketCallback { userdata, func: if func == 0 { None } else { Some(func) } }
    }

    /// Returns the dispatch function that may be called, if any.
    #[verifier::when_used_as_spec(spec_dispatch_fn)]
    pub fn dispatch_fn(self) -> (f: Option<usize>)
        ensures
            f == self.spec_dispatch_fn(),
    {
        match self.func {
            Some(f) => if f != 0 {
                Some(f)
            } else {
                None
            },
            None => None,
        }
    }

    /// Decides the call that delivers `payload`: exactly one call carrying the
    /// context and the unchanged bytes when a dispatch function is present,
    /// none otherwise.
    pub fn invoke(&self, payload: Vec<u8>) -> (call: Option<Invocation>)
        ensures
            self.delivers(payload@, call),
    {
        match self.dispatch_fn() {
            Some(f) => Some(Invocation { func: f, userdata: self.userdata, payload }),
            None => None,
        }
    }
}

} // verus!
