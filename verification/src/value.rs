//! The types of Rust values that Python objects carry, with their classes.
use crate::context::{keeps_builtins, lemma_builtins_stay, lemma_derived_valid, PyContext};
use crate::convert::{Conversion, MismatchKind, TypeMismatch};
use crate::frame::Frame;
use crate::object::{
    allocated, grows, lemma_same_ref, lemma_typed, object_at, payload_fits, plain_object, typed,
    PyClassRef, PyObject, PyRef, TypeProtocol,
};
use crate::objtype;
use crate::objtype::subclass;
use crate::payload::{
    PyBuiltinFunction, PyByteArray, PyBytes, PyClass, PyCode, PyComplex, PyDict, PyEllipsis,
    PyFloat, PyFunction, PyInstance, PyInt, PyIteratorValue, PyList, PyMethod, PyModule, PyNone,
    PyNotImplemented, PyObjectPayload, PyReadOnlyProperty, PySet, PyString, PyTuple,
};
use vstd::prelude::*;

verus! {

/// Implemented by the payloads that have a class of their own.
pub trait PyValue: PyObjectPayload {
    /// The class.
    spec fn class_in(ctx: PyContext) -> PyClassRef;

    fn class(ctx: &PyContext) -> (r: PyClassRef)
        requires
            ctx.wf(),
        ensures
            r == Self::class_in(*ctx),
            r.valid(ctx.heap@),
    ;

    /// The class stays the same.
    proof fn lemma_class_stays(before: PyContext, after: PyContext)
        requires
            before.wf(),
            keeps_builtins(before, after),
            grows(before.heap@, after.heap@),
        ensures
            Self::class_in(after) == Self::class_in(before),
    ;

    /// Makes an object of the class that carries this value.
    fn into_ref(self, ctx: &mut PyContext) -> (r: PyRef<Self>)
        requires
            old(ctx).wf(),
            payload_fits(old(ctx).heap@, old(ctx).heap@.len(), self.as_payload()@),
        ensures
            final(ctx).wf(),
            keeps_builtins(*old(ctx), *final(ctx)),
            allocated(
                old(ctx).heap@,
                final(ctx).heap@,
                r@,
                plain_object(Self::class_in(*old(ctx))@, self.as_payload()@),
            ),
            grows(old(ctx).heap@, final(ctx).heap@),
            r.valid(final(ctx).heap@),
    {
        let class = Self::class(ctx);
        let obj = PyObject::new(self, class.into_object(), &mut ctx.heap);
        proof {
            lemma_builtins_stay(*ctx, old(ctx).heap@, ctx.heap@);
        }
        PyRef::from_object(obj)
    }

    /// Makes an object of the class `cls` that carries this value, if `cls` is
    /// the class of this type or inherits from it.
    fn into_ref_with_type(self, ctx: &mut PyContext, cls: PyClassRef) -> (r: Conversion<
        PyRef<Self>,
    >)
        requires
            old(ctx).wf(),
            cls.valid(old(ctx).heap@),
            payload_fits(old(ctx).heap@, old(ctx).heap@.len(), self.as_payload()@),
        ensures
            final(ctx).wf(),
            keeps_builtins(*old(ctx), *final(ctx)),
            grows(old(ctx).heap@, final(ctx).heap@),
            if subclass(old(ctx).heap@, cls@, Self::class_in(*old(ctx))@) {
                &&& r matches Conversion::Ready(Ok(made))
                &&& allocated(
                    old(ctx).heap@,
                    final(ctx).heap@,
                    made@,
                    plain_object(cls@, self.as_payload()@),
                )
                &&& made.valid(final(ctx).heap@)
            } else {
                &&& r == Conversion::<PyRef<Self>>::Mismatch(
                    TypeMismatch {
                        kind: MismatchKind::NotSubtype,
                        first: cls@,
                        second: Self::class_in(*old(ctx))@,
                        first_str: None,
                    },
                )
                &&& final(ctx).heap@ == old(ctx).heap@
            },
    {
        let class = Self::class(ctx);
        if objtype::issubclass(&cls, &class, &ctx.heap) {
            let obj = PyObject::new(self, cls.into_object(), &mut ctx.heap);
            proof {
                lemma_builtins_stay(*ctx, old(ctx).heap@, ctx.heap@);
            }
            Conversion::Ready(Ok(PyRef::from_object(obj)))
        } else {
            Conversion::Mismatch(
                TypeMismatch {
                    kind: MismatchKind::NotSubtype,
                    first: cls.into_object(),
                    second: class.into_object(),
                    first_str: None,
                },
            )
        }
    }
}

impl PyValue for PyClass {
    open spec fn class_in(ctx: PyContext) -> PyClassRef {
        ctx.type_type
    }

    fn class(ctx: &PyContext) -> PyClassRef {
        broadcast use lemma_derived_valid;

        ctx.type_type.clone()
    }

    proof fn lemma_class_stays(before: PyContext, after: PyContext) {
    }
}

impl PyValue for PyModule {
    open spec fn class_in(ctx: PyContext) -> PyClassRef {
        ctx.module_type
    }

    fn class(ctx: &PyContext) -> PyClassRef {
        broadcast use lemma_derived_valid;

        ctx.module_type.clone()
    }

    proof fn lemma_class_stays(before: PyContext, after: PyContext) {
    }
}

impl PyValue for PyInstance {
    open spec fn class_in(ctx: PyContext) -> PyClassRef {
        ctx.object
    }

    fn class(ctx: &PyContext) -> PyClassRef {
        broadcast use lemma_derived_valid;

        ctx.object.clone()
    }

    proof fn lemma_class_stays(before: PyContext, after: PyContext) {
    }
}

impl PyValue for PyEllipsis {
    open spec fn class_in(ctx: PyContext) -> PyClassRef {
        ctx.ellipsis_type
    }

    fn class(ctx: &PyContext) -> PyClassRef {
        broadcast use lemma_derived_valid;

        ctx.ellipsis_type.clone()
    }

    proof fn lemma_class_stays(before: PyContext, after: PyContext) {
    }
}

impl PyValue for PyInt {
    open spec fn class_in(ctx: PyContext) -> PyClassRef {
        ctx.int_type
    }

    fn class(ctx: &PyContext) -> PyClassRef {
        broadcast use lemma_derived_valid;

        ctx.int_type.clone()
    }

    proof fn lemma_class_stays(before: PyContext, after: PyContext) {
    }
}

impl PyValue for PyFloat {
    open spec fn class_in(ctx: PyContext) -> PyClassRef {
        ctx.float_type
    }

    fn class(ctx: &PyContext) -> PyClassRef {
        broadcast use lemma_derived_valid;

        ctx.float_type.clone()
    }

    proof fn lemma_class_stays(before: PyContext, after: PyContext) {
    }
}

impl PyValue for PyComplex {
    open spec fn class_in(ctx: PyContext) -> PyClassRef {
        ctx.complex_type
    }

    fn class(ctx: &PyContext) -> PyClassRef {
        broadcast use lemma_derived_valid;

        ctx.complex_type.clone()
    }

    proof fn lemma_class_stays(before: PyContext, after: PyContext) {
    }
}

impl PyValue for PyString {
    open spec fn class_in(ctx: PyContext) -> PyClassRef {
        ctx.str_type
    }

    fn class(ctx: &PyContext) -> PyClassRef {
        broadcast use lemma_derived_valid;

        ctx.str_type.clone()
    }

    proof fn lemma_class_stays(before: PyContext, after: PyContext) {
    }
}

impl PyValue for PyBytes {
    open spec fn class_in(ctx: PyContext) -> PyClassRef {
        ctx.bytes_type
    }

    fn class(ctx: &PyContext) -> PyClassRef {
        broadcast use lemma_derived_valid;

        ctx.bytes_type.clone()
    }

    proof fn lemma_class_stays(before: PyContext, after: PyContext) {
    }
}

impl PyValue for PyByteArray {
    open spec fn class_in(ctx: PyContext) -> PyClassRef {
        ctx.bytearray_type
    }

    fn class(ctx: &PyContext) -> PyClassRef {
        broadcast use lemma_derived_valid;

        ctx.bytearray_type.clone()
    }

    proof fn lemma_class_stays(before: PyContext, after: PyContext) {
    }
}

impl PyValue for PyTuple {
    open spec fn class_in(ctx: PyContext) -> PyClassRef {
        ctx.tuple_type
    }

    fn class(ctx: &PyContext) -> PyClassRef {
        broadcast use lemma_derived_valid;

        ctx.tuple_type.clone()
    }

    proof fn lemma_class_stays(before: PyContext, after: PyContext) {
    }
}

impl PyValue for PyList {
    open spec fn class_in(ctx: PyContext) -> PyClassRef {
        ctx.list_type
    }

    fn class(ctx: &PyContext) -> PyClassRef {
        broadcast use lemma_derived_valid;

        ctx.list_type.clone()
    }

    proof fn lemma_class_stays(before: PyContext, after: PyContext) {
    }
}

impl PyValue for PySet {
    open spec fn class_in(ctx: PyContext) -> PyClassRef {
        ctx.set_type
    }

    fn class(ctx: &PyContext) -> PyClassRef {
        broadcast use lemma_derived_valid;

        ctx.set_type.clone()
    }

    proof fn lemma_class_stays(before: PyContext, after: PyContext) {
    }
}

impl PyValue for PyDict {
    open spec fn class_in(ctx: PyContext) -> PyClassRef {
        ctx.dict_type
    }

    fn class(ctx: &PyContext) -> PyClassRef {
        broadcast use lemma_derived_valid;

        ctx.dict_type.clone()
    }

    proof fn lemma_class_stays(before: PyContext, after: PyContext) {
    }
}

impl PyValue for PyBuiltinFunction {
    open spec fn class_in(ctx: PyContext) -> PyClassRef {
        ctx.builtin_function_or_method_type
    }

    fn class(ctx: &PyContext) -> PyClassRef {
        broadcast use lemma_derived_valid;

        ctx.builtin_function_or_method_type.clone()
    }

    proof fn lemma_class_stays(before: PyContext, after: PyContext) {
    }
}

impl PyValue for PyReadOnlyProperty {
    open spec fn class_in(ctx: PyContext) -> PyClassRef {
        ctx.readonly_property_type
    }

    fn class(ctx: &PyContext) -> PyClassRef {
        broadcast use lemma_derived_valid;

        ctx.readonly_property_type.clone()
    }

    proof fn lemma_class_stays(before: PyContext, after: PyContext) {
    }
}

impl PyValue for Frame {
    open spec fn class_in(ctx: PyContext) -> PyClassRef {
        ctx.frame_type
    }

    fn class(ctx: &PyContext) -> PyClassRef {
        broadcast use lemma_derived_valid;

        ctx.frame_type.clone()
    }

    proof fn lemma_class_stays(before: PyContext, after: PyContext) {
    }
}

impl PyValue for PyCode {
    open spec fn class_in(ctx: PyContext) -> PyClassRef {
        ctx.code_type
    }

    fn class(ctx: &PyContext) -> PyClassRef {
        broadcast use lemma_derived_valid;

        ctx.code_type.clone()
    }

    proof fn lemma_class_stays(before: PyContext, after: PyContext) {
    }
}

impl PyValue for PyFunction {
    open spec fn class_in(ctx: PyContext) -> PyClassRef {
        ctx.function_type
    }

    fn class(ctx: &PyContext) -> PyClassRef {
        broadcast use lemma_derived_valid;

        ctx.function_type.clone()
    }

    proof fn lemma_class_stays(before: PyContext, after: PyContext) {
    }
}

impl PyValue for PyMethod {
    open spec fn class_in(ctx: PyContext) -> PyClassRef {
        ctx.bound_method_type
    }

    fn class(ctx: &PyContext) -> PyClassRef {
        broadcast use lemma_derived_valid;

        ctx.bound_method_type.clone()
    }

    proof fn lemma_class_stays(before: PyContext, after: PyContext) {
    }
}

impl PyValue for PyIteratorValue {
    open spec fn class_in(ctx: PyContext) -> PyClassRef {
        ctx.iter_type
    }

    fn class(ctx: &PyContext) -> PyClassRef {
        broadcast use lemma_derived_valid;

        ctx.iter_type.clone()
    }

    proof fn lemma_class_stays(before: PyContext, after: PyContext) {
    }
}

impl PyValue for PyNone {
    open spec fn class_in(ctx: PyContext) -> PyClassRef {
        typed(object_at(ctx.heap@, ctx.none@).typ)
    }

    fn class(ctx: &PyContext) -> PyClassRef {
        broadcast use {lemma_derived_valid, lemma_typed, lemma_same_ref};

        ctx.none().type_pyref(&ctx.heap)
    }

    proof fn lemma_class_stays(before: PyContext, after: PyContext) {
        assert(after.heap@[before.none@@ as int].typ == before.heap@[before.none@@ as int].typ);
    }
}

impl PyValue for PyNotImplemented {
    open spec fn class_in(ctx: PyContext) -> PyClassRef {
        typed(object_at(ctx.heap@, ctx.not_implemented@).typ)
    }

    fn class(ctx: &PyContext) -> PyClassRef {
        broadcast use {lemma_derived_valid, lemma_typed, lemma_same_ref};

        ctx.not_implemented().type_pyref(&ctx.heap)
    }

    proof fn lemma_class_stays(before: PyContext, after: PyContext) {
        let place = before.not_implemented@@ as int;
        assert(after.heap@[place].typ == before.heap@[place].typ);
    }
}

} // verus!
