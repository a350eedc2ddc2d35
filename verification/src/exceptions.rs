//! The classes of the built-in exceptions.
use crate::context::{all_have_attributes, create_type, derived};
use crate::object::{grows, HeapModel, PyClassRef, PyHeap, PyObjectRef};
use crate::objtype::{hierarchy, lemma_hierarchy_class};
use vstd::prelude::*;

verus! {

#[derive(Debug)]
pub struct ExceptionZoo {
    pub base_exception_type: PyClassRef,
    pub exception_type: PyClassRef,
    pub stop_iteration: PyClassRef,
    pub type_error: PyClassRef,
}

impl ExceptionZoo {
    /// The classes have their names and bases.
    pub open spec fn wf(&self, h: HeapModel, meta: PyClassRef, object: PyClassRef) -> bool {
        &&& derived(h, self.base_exception_type, "BaseException"@, meta, object)
        &&& derived(h, self.exception_type, "Exception"@, meta, self.base_exception_type)
        &&& derived(h, self.stop_iteration, "StopIteration"@, meta, self.exception_type)
        &&& derived(h, self.type_error, "TypeError"@, meta, self.exception_type)
    }

    pub fn new(type_type: &PyClassRef, object_type: &PyClassRef, heap: &mut PyHeap) -> (r: Self)
        requires
            old(heap).wf(),
            type_type.valid(old(heap)@),
            object_type.valid(old(heap)@),
        ensures
            final(heap).wf(),
            grows(old(heap)@, final(heap)@),
            final(heap)@.len() == old(heap)@.len() + 4,
            forall|i: int| 0 <= i < old(heap)@.len() ==> final(heap)@[i] == old(heap)@[i],
            all_have_attributes(old(heap)@) ==> all_have_attributes(final(heap)@),
            forall|root: PyObjectRef| #[trigger]
                hierarchy(old(heap)@, root) ==> hierarchy(final(heap)@, root),
            r.wf(final(heap)@, *type_type, *object_type),
    {
        broadcast use {crate::context::lemma_derived_stays, crate::context::lemma_derived_valid};

        reveal(all_have_attributes);
        let ghost h0 = heap@;
        let base_exception_type = create_type("BaseException", type_type, object_type, heap);
        let ghost h1 = heap@;
        let exception_type = create_type("Exception", type_type, &base_exception_type, heap);
        let ghost h2 = heap@;
        let stop_iteration = create_type("StopIteration", type_type, &exception_type, heap);
        let ghost h3 = heap@;
        let type_error = create_type("TypeError", type_type, &exception_type, heap);
        proof {
            assert forall|root: PyObjectRef| #[trigger] hierarchy(h0, root) implies hierarchy(
                heap@,
                root,
            ) by {
                lemma_hierarchy_class(h0, h1.last(), *object_type, root);
                lemma_hierarchy_class(h1, h2.last(), base_exception_type, root);
                lemma_hierarchy_class(h2, h3.last(), exception_type, root);
                lemma_hierarchy_class(h3, heap@.last(), exception_type, root);
            }
        }
        ExceptionZoo { base_exception_type, exception_type, stop_iteration, type_error }
    }
}

} // verus!
