//! Scaffolding for a bytecode interpreter over the decoded metadata.

use vstd::prelude::*;

verus! {

/// Placeholder for the resolved description of a method.
#[derive(Debug)]
pub struct MethodInfo {}

/// The mutable state of one method activation.
#[derive(Debug)]
pub struct MethodState {
    pub ip: u32,
    pub stack: Vec<u8>,
    pub local_variables: Vec<u8>,
    pub local_heap: Vec<u8>,
    pub arguments: Vec<u8>,
    pub method_info: Box<MethodInfo>,
}

impl MethodState {
    /// A fresh activation: instruction pointer zero and empty stores.
    pub fn new() -> (r: MethodState)
        ensures
            r.ip == 0,
            r.stack@ == Seq::<u8>::empty(),
            r.local_variables@ == Seq::<u8>::empty(),
            r.local_heap@ == Seq::<u8>::empty(),
            r.arguments@ == Seq::<u8>::empty(),
    {
        MethodState {
            ip: 0,
            stack: Vec::new(),
            local_variables: Vec::new(),
            local_heap: Vec::new(),
            arguments: Vec::new(),
            method_info: Box::new(MethodInfo {}),
        }
    }
}

} // verus!
