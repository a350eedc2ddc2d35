//! Scopes and frames.
use crate::object::PyObjectRef;
use vstd::prelude::*;

verus! {

/// The variables that a piece of code sees: a stack of `dict` objects for the
/// local ones and one for the global ones.
#[derive(Debug)]
pub struct Scope {
    pub locals: Vec<PyObjectRef>,
    pub globals: PyObjectRef,
}

impl Scope {
    pub fn new(locals: Option<PyObjectRef>, globals: PyObjectRef) -> (r: Scope)
        ensures
            r.globals == globals,
            match locals {
                Some(dict) => r.locals@ == seq![dict],
                None => r.locals@ == Seq::<PyObjectRef>::empty(),
            },
    {
        let mut stack: Vec<PyObjectRef> = Vec::new();
        if let Some(dict) = locals {
            stack.push(dict);
        }
        assert(locals matches Some(dict) ==> stack@ =~= seq![dict]);
        Scope { locals: stack, globals }
    }
}

/// The execution of a code object in a scope.
#[derive(Debug)]
pub struct Frame {
    pub code: PyObjectRef,
    pub scope: Scope,
}

} // verus!
