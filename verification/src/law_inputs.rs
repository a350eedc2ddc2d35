//! Which inputs the operations take, in terms of the heap.
use crate::bytecode::{CodeObject, Constant};
use crate::context::PyContext;
use crate::convert::{IntoPyObject, TryFromObject, TryIntoRef};
use crate::describe::BufferProtocol;
use crate::frame::Scope;
use crate::iter::PyIterator;
use crate::law_items::leads_to;
use crate::object::{
    object_fits, payload_fits, HeapModel, PyClassRef, PyHeap, PyObject, PyObjectRef, PyRef,
    PyResult, TypeProtocol,
};
use crate::objdict::{item_dict, DictProtocol};
use crate::objtype::{get_type_name, isinstance, issubclass};
use crate::payload::{payload_kind, Payload, PyNativeFunc};
use crate::value::PyValue;
use num_bigint::BigInt;
use num_complex::Complex64;
use vstd::prelude::*;

verus! {

/// Objects of all kinds can be made in every context that is in order, of
/// whatever objects of its heap.
pub proof fn law_objects_can_be_made(
    ctx: &mut PyContext,
    n: i64,
    big: BigInt,
    bits: u64,
    complex: Complex64,
    text: String,
    data: Vec<u8>,
    elements: Vec<PyObjectRef>,
    name: &str,
    f: PyNativeFunc,
    code: CodeObject,
    scope: Scope,
    a: PyObjectRef,
    b: PyObjectRef,
    c: Constant,
    class: PyClassRef,
)
    requires
        old(ctx).wf(),
        forall|i: int|
            0 <= i < elements@.len() ==> (#[trigger] elements@[i])@ < old(ctx).heap@.len(),
        forall|i: int|
            0 <= i < scope.locals@.len() ==> (#[trigger] scope.locals@[i])@ < old(ctx).heap@.len(),
        scope.globals@ < old(ctx).heap@.len(),
        a@ < old(ctx).heap@.len(),
        b@ < old(ctx).heap@.len(),
        class@@ < old(ctx).heap@.len(),
        old(ctx).heap@[class@@ as int].payload is Class,
    ensures
        call_requires(PyContext::new_object, (ctx,)),
        call_requires(PyContext::new_int::<i64>, (ctx, n)),
        call_requires(PyContext::new_int::<BigInt>, (ctx, big)),
        call_requires(PyContext::new_float, (ctx, bits)),
        call_requires(PyContext::new_complex, (ctx, complex)),
        call_requires(PyContext::new_str, (ctx, text)),
        call_requires(PyContext::new_bytes, (ctx, data)),
        call_requires(PyContext::new_bytearray, (ctx, data)),
        call_requires(PyContext::new_tuple, (ctx, elements)),
        call_requires(PyContext::new_list, (ctx, elements)),
        call_requires(PyContext::new_set, (ctx,)),
        call_requires(PyContext::new_dict, (ctx,)),
        call_requires(PyContext::new_scope, (ctx,)),
        call_requires(PyContext::new_class, (ctx, name, class)),
        call_requires(PyContext::new_module, (ctx, name, a)),
        call_requires(PyContext::new_rustfunc, (ctx, f)),
        call_requires(PyContext::new_property, (ctx, f)),
        call_requires(PyContext::new_frame, (ctx, a, scope)),
        call_requires(PyContext::new_code_object, (ctx, code)),
        call_requires(PyContext::new_function, (ctx, a, scope, b)),
        call_requires(PyContext::new_bound_method, (ctx, a, b)),
        call_requires(PyContext::new_instance, (ctx, class, None)),
        call_requires(PyContext::unwrap_constant, (ctx, &c)),
{
}

/// Items of every `dict` object, and of every module that leads to one, can be
/// set and read.
pub proof fn law_items_can_be_used(
    ctx: &mut PyContext,
    obj: PyObjectRef,
    d: PyObjectRef,
    key: &str,
    v: PyObjectRef,
    heap: &mut PyHeap,
)
    requires
        old(ctx).wf(),
        leads_to(old(ctx).heap@, obj, d),
        v@ < old(ctx).heap@.len(),
        *old(heap) == old(ctx).heap,
    ensures
        call_requires(<PyObjectRef as DictProtocol>::set_item, (&obj, ctx, key, v)),
        call_requires(<PyObjectRef as DictProtocol>::get_item, (&obj, key, &old(ctx).heap)),
        call_requires(
            <PyObjectRef as DictProtocol>::get_key_value_pairs,
            (&obj, &old(ctx).heap),
        ),
        obj == d ==> call_requires(
            <PyObjectRef as DictProtocol>::contains_key,
            (&obj, key, &old(ctx).heap),
        ),
        obj == d ==> call_requires(PyContext::set_item, (ctx, &obj, key, v)),
        obj == d && old(ctx).heap@[d@ as int].payload->entries.contains_key(key@) ==> call_requires(
            <PyObjectRef as DictProtocol>::del_item,
            (&obj, key, heap),
        ),
        old(ctx).heap@[obj@ as int].payload is Module ==> call_requires(
            PyContext::set_object_attr,
            (ctx, &obj, key, v),
        ),
{
    lemma_leads(old(ctx).heap@, obj, d);
    if obj == d {
        lemma_leads(old(ctx).heap@, d, d);
        lemma_is_dict(old(ctx).heap@, obj, d);
    }
}

proof fn lemma_leads(h: HeapModel, r: PyObjectRef, d: PyObjectRef)
    requires
        leads_to(h, r, d),
    ensures
        item_dict(h, r) == Some(d),
    decreases r@,
{
    if h[r@ as int].payload is Module {
        lemma_leads(h, h[r@ as int].payload->dict, d);
    }
}

proof fn lemma_is_dict(h: HeapModel, r: PyObjectRef, d: PyObjectRef)
    requires
        leads_to(h, r, d),
    ensures
        h[d@ as int].payload is Dict,
    decreases r@,
{
    if h[r@ as int].payload is Module {
        lemma_is_dict(h, h[r@ as int].payload->dict, d);
    }
}

/// An attribute can be set on every object that has a place for attributes and is
/// no module.
pub proof fn law_attributes_can_be_used(
    ctx: &mut PyContext,
    obj: PyObjectRef,
    name: &str,
    value: PyObjectRef,
)
    requires
        old(ctx).wf(),
        obj@ < old(ctx).heap@.len(),
        value@ < old(ctx).heap@.len(),
        !(old(ctx).heap@[obj@ as int].payload is Module),
        old(ctx).heap@[obj@ as int].dict is Some,
    ensures
        call_requires(PyContext::set_object_attr, (ctx, &obj, name, value)),
{
}

/// Every object whose type is a class can be converted, iterated over and asked
/// for what it is an instance of; its type can be read and it can be printed.
pub proof fn law_objects_can_be_asked<T: PyValue>(
    ctx: PyContext,
    obj: PyObjectRef,
    cls: PyClassRef,
    it: PyIterator<PyObjectRef>,
    typed: PyIterator<PyRef<T>>,
    p: PyRef<T>,
)
    requires
        ctx.wf(),
        obj@ < ctx.heap@.len(),
        ctx.heap@[ctx.heap@[obj@ as int].typ@ as int].payload is Class,
        p@@ < ctx.heap@.len(),
        payload_kind(ctx.heap@[p@@ as int].payload) == T::kind(),
    ensures
        call_requires(<PyRef<T> as TryFromObject>::try_from_object, (&ctx, obj, None)),
        call_requires(<PyObjectRef as TryFromObject>::try_from_object, (&ctx, obj, None)),
        call_requires(<Option<PyRef<T>> as TryFromObject>::try_from_object, (&ctx, obj, None)),
        call_requires(<PyObjectRef as TryIntoRef<T>>::try_into_ref, (obj, &ctx)),
        call_requires(isinstance, (&obj, &cls, &ctx.heap)),
        call_requires(PyIterator::<PyObjectRef>::next, (&it, &ctx, Err(obj), None)),
        call_requires(PyIterator::<PyObjectRef>::next, (&it, &ctx, Ok(obj), None)),
        call_requires(PyIterator::<PyRef<T>>::next, (&typed, &ctx, Ok(obj), None)),
        call_requires(<PyObjectRef as TypeProtocol>::typ, (&obj, &ctx.heap)),
        call_requires(<PyObjectRef as TypeProtocol>::type_pyref, (&obj, &ctx.heap)),
        call_requires(PyHeap::get, (&ctx.heap, &obj)),
        call_requires(PyRef::<T>::deref, (&p, &ctx.heap)),
        call_requires(<T as PyValue>::class, (&ctx,)),
{
    assert(object_fits(ctx.heap@, obj@, ctx.heap@[obj@ as int]));
    T::lemma_kind(ctx.heap@[p@@ as int].payload);
}

/// Every class can be asked for its name and for what it inherits from, every
/// object whose type is a class can be printed, and so can every module.
pub proof fn law_classes_can_be_asked(
    heap: PyHeap,
    class: PyClassRef,
    cls: PyClassRef,
    o: PyObject<Payload>,
)
    requires
        class@@ < heap@.len(),
        heap@[class@@ as int].payload is Class,
    ensures
        call_requires(get_type_name, (&class@, &heap)),
        call_requires(issubclass, (&class, &cls, &heap)),
        o.typ == class@ || o.payload is Module ==> call_requires(
            PyObject::<Payload>::display,
            (&o, &heap),
        ),
{
}

/// Every result can be turned into an object: a reference whatever it refers to,
/// an exception, and a value that refers to objects of the heap.
pub proof fn law_results_can_be_turned<T: PyValue>(
    ctx: &mut PyContext,
    obj: PyObjectRef,
    p: PyRef<T>,
    v: T,
    r: PyResult<PyObjectRef>,
    class: PyClassRef,
)
    requires
        old(ctx).wf(),
        payload_fits(old(ctx).heap@, old(ctx).heap@.len(), v.as_payload()@),
        class@@ < old(ctx).heap@.len(),
        old(ctx).heap@[class@@ as int].payload is Class,
    ensures
        call_requires(<PyObjectRef as IntoPyObject>::into_pyobject, (obj, ctx)),
        call_requires(<PyRef<T> as IntoPyObject>::into_pyobject, (p, ctx)),
        call_requires(<PyResult<PyObjectRef> as IntoPyObject>::into_pyobject, (r, ctx)),
        call_requires(<T as IntoPyObject>::into_pyobject, (v, ctx)),
        call_requires(<T as PyValue>::into_ref, (v, ctx)),
        call_requires(<T as PyValue>::into_ref_with_type, (v, ctx, class)),
{
}

/// Every object whose class has one of the three names can be asked whether it is
/// read-only.
pub proof fn law_buffers_can_be_asked(heap: PyHeap, obj: PyObjectRef)
    requires
        heap.wf(),
        obj@ < heap@.len(),
        heap@[heap@[obj@ as int].typ@ as int].payload is Class,
        heap@[heap@[obj@ as int].typ@ as int].payload->Class_name == "bytes"@
            || heap@[heap@[obj@ as int].typ@ as int].payload->Class_name == "bytearray"@
            || heap@[heap@[obj@ as int].typ@ as int].payload->Class_name == "memoryview"@,
    ensures
        call_requires(<PyObjectRef as BufferProtocol>::readonly, (&obj, &heap)),
{
    assert(object_fits(heap@, obj@, heap@[obj@ as int]));
}

} // verus!
