//! The functions that the host provides.

use vstd::prelude::*;
use std::collections::HashMap;

verus! {

/// A function of the host: its fingerprint and the number of arguments it
/// takes.
#[derive(Clone, Copy, Debug, PartialEq, Eq, Structural)]
pub struct FunctionHandler {
    /// The fingerprint under which the function is called.
    pub hash: crate::hash::Hash,
    /// The number of arguments.
    pub args: usize,
}

/// The environment of the host: the functions it provides, by fingerprint.
pub struct Context {
    /// The functions.
    pub functions: HashMap<u64, FunctionHandler>,
}

impl View for Context {
    type V = Map<u64, FunctionHandler>;

    open spec fn view(&self) -> Map<u64, FunctionHandler> {
        self.functions@
    }
}

impl Context {
    /// An environment that provides nothing.
    pub fn new() -> (context: Context)
        ensures
            context@ == Map::<u64, FunctionHandler>::empty(),
    {
        Context { functions: HashMap::new() }
    }

    /// Provides a function under its fingerprint. A function that was
    /// provided under it before is replaced and handed back.
    pub fn install(&mut self, handler: FunctionHandler) -> (previous: Option<FunctionHandler>)
        ensures
            final(self)@ == old(self)@.insert(handler.hash.0, handler),
            previous == if old(self)@.contains_key(handler.hash.0) {
                Some(old(self)@[handler.hash.0])
            } else {
                None
            },
    {
        self.functions.insert(handler.hash.0, handler)
    }

    /// The function that the host provides under a fingerprint.
    pub fn lookup_function(&self, hash: crate::hash::Hash) -> (r: Option<FunctionHandler>)
        ensures
            r == if self@.contains_key(hash.0) {
                Some(self@[hash.0])
            } else {
                None
            },
    {
        match self.functions.get(&hash.0) {
            Some(handler) => Some(*handler),
            None => None,
        }
    }
}

} // verus!
