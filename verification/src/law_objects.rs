//! What the constructors put into the heap, and what is read from it, in terms
//! of the heap alone.
use crate::bytecode::CodeObject;
use crate::context::PyContext;
use crate::frame::{Frame, Scope};
use crate::numbers::bigint_value;
use crate::object::{
    all_classes, all_in_heap, allocated, entries_fit, lemma_place, lemma_same_place, lemma_typed,
    object_fits, payload_fits, plain_object, FromPyObjectRef, HeapModel, IdProtocol, ObjectModel,
    PyClassRef, PyHeap, PyObject, PyObjectRef, PyRef, SameObject, TypeProtocol,
};
use crate::payload::{
    payload_kind, DictContent, Payload, PayloadModel, PyAttributes, PyBuiltinFunction,
    PyByteArray, PyBytes, PyClass, PyCode, PyComplex, PyDict, PyEllipsis, PyFloat, PyFunction,
    PyInstance, PyInt, PyIteratorValue, PyList, PyMethod, PyModule, PyNativeFunc, PyNone,
    PyNotImplemented, PyObjectPayload, PyReadOnlyProperty, PySet, PyString, PyTuple,
};
use num_bigint::BigInt;
use num_complex::Complex64;
use vstd::prelude::*;

verus! {

/// An object of class `object` that carries nothing
/// is put at the end of the heap, without attributes, and nothing else changes.
pub proof fn law_new_object(
    ctx: &mut PyContext,
    r: PyObjectRef,
)
    requires
        call_ensures(PyContext::new_object, (ctx,), r),
    ensures
        *final(ctx) == (PyContext { heap: final(ctx).heap, ..*old(ctx) }),
        r@ == old(ctx).heap@.len(),
        final(ctx).heap@ == old(ctx).heap@.push(
            ObjectModel {
                typ: old(ctx).object@,
                dict: Some(Map::empty()),
                payload: PayloadModel::Instance,
            },
        ),
{
}

/// A `float` object with these bits
/// is put at the end of the heap, without attributes, and nothing else changes.
pub proof fn law_new_float(
    ctx: &mut PyContext,
    bits: u64,
    r: PyObjectRef,
)
    requires
        call_ensures(PyContext::new_float, (ctx, bits), r),
    ensures
        *final(ctx) == (PyContext { heap: final(ctx).heap, ..*old(ctx) }),
        r@ == old(ctx).heap@.len(),
        final(ctx).heap@ == old(ctx).heap@.push(
            ObjectModel {
                typ: old(ctx).float_type@,
                dict: Some(Map::empty()),
                payload: PayloadModel::Float { bits },
            },
        ),
{
}

/// A `complex` object with this number
/// is put at the end of the heap, without attributes, and nothing else changes.
pub proof fn law_new_complex(
    ctx: &mut PyContext,
    value: Complex64,
    r: PyObjectRef,
)
    requires
        call_ensures(PyContext::new_complex, (ctx, value), r),
    ensures
        *final(ctx) == (PyContext { heap: final(ctx).heap, ..*old(ctx) }),
        r@ == old(ctx).heap@.len(),
        final(ctx).heap@ == old(ctx).heap@.push(
            ObjectModel {
                typ: old(ctx).complex_type@,
                dict: Some(Map::empty()),
                payload: PayloadModel::Complex { value },
            },
        ),
{
}

/// A `str` object with this text
/// is put at the end of the heap, without attributes, and nothing else changes.
pub proof fn law_new_str(
    ctx: &mut PyContext,
    s: String,
    r: PyObjectRef,
)
    requires
        call_ensures(PyContext::new_str, (ctx, s), r),
    ensures
        *final(ctx) == (PyContext { heap: final(ctx).heap, ..*old(ctx) }),
        r@ == old(ctx).heap@.len(),
        final(ctx).heap@ == old(ctx).heap@.push(
            ObjectModel {
                typ: old(ctx).str_type@,
                dict: Some(Map::empty()),
                payload: PayloadModel::Str { value: s@ },
            },
        ),
{
}

/// A `bytes` object with all these bytes
/// is put at the end of the heap, without attributes, and nothing else changes.
pub proof fn law_new_bytes(
    ctx: &mut PyContext,
    data: Vec<u8>,
    r: PyObjectRef,
)
    requires
        call_ensures(PyContext::new_bytes, (ctx, data), r),
    ensures
        *final(ctx) == (PyContext { heap: final(ctx).heap, ..*old(ctx) }),
        r@ == old(ctx).heap@.len(),
        final(ctx).heap@ == old(ctx).heap@.push(
            ObjectModel {
                typ: old(ctx).bytes_type@,
                dict: Some(Map::empty()),
                payload: PayloadModel::Bytes { value: data@ },
            },
        ),
{
}

/// A `bytearray` object with all these bytes
/// is put at the end of the heap, without attributes, and nothing else changes.
pub proof fn law_new_bytearray(
    ctx: &mut PyContext,
    data: Vec<u8>,
    r: PyObjectRef,
)
    requires
        call_ensures(PyContext::new_bytearray, (ctx, data), r),
    ensures
        *final(ctx) == (PyContext { heap: final(ctx).heap, ..*old(ctx) }),
        r@ == old(ctx).heap@.len(),
        final(ctx).heap@ == old(ctx).heap@.push(
            ObjectModel {
                typ: old(ctx).bytearray_type@,
                dict: Some(Map::empty()),
                payload: PayloadModel::ByteArray { value: data@ },
            },
        ),
{
}

/// A `tuple` object with all these elements, in their order
/// is put at the end of the heap, without attributes, and nothing else changes.
pub proof fn law_new_tuple(
    ctx: &mut PyContext,
    elements: Vec<PyObjectRef>,
    r: PyObjectRef,
)
    requires
        call_ensures(PyContext::new_tuple, (ctx, elements), r),
    ensures
        *final(ctx) == (PyContext { heap: final(ctx).heap, ..*old(ctx) }),
        r@ == old(ctx).heap@.len(),
        final(ctx).heap@ == old(ctx).heap@.push(
            ObjectModel {
                typ: old(ctx).tuple_type@,
                dict: Some(Map::empty()),
                payload: PayloadModel::Tuple { elements: elements@ },
            },
        ),
{
}

/// A `list` object with all these elements, in their order
/// is put at the end of the heap, without attributes, and nothing else changes.
pub proof fn law_new_list(
    ctx: &mut PyContext,
    elements: Vec<PyObjectRef>,
    r: PyObjectRef,
)
    requires
        call_ensures(PyContext::new_list, (ctx, elements), r),
    ensures
        *final(ctx) == (PyContext { heap: final(ctx).heap, ..*old(ctx) }),
        r@ == old(ctx).heap@.len(),
        final(ctx).heap@ == old(ctx).heap@.push(
            ObjectModel {
                typ: old(ctx).list_type@,
                dict: Some(Map::empty()),
                payload: PayloadModel::List { elements: elements@ },
            },
        ),
{
}

/// A `set` object without elements
/// is put at the end of the heap, without attributes, and nothing else changes.
pub proof fn law_new_set(
    ctx: &mut PyContext,
    r: PyObjectRef,
)
    requires
        call_ensures(PyContext::new_set, (ctx,), r),
    ensures
        *final(ctx) == (PyContext { heap: final(ctx).heap, ..*old(ctx) }),
        r@ == old(ctx).heap@.len(),
        final(ctx).heap@ == old(ctx).heap@.push(
            ObjectModel {
                typ: old(ctx).set_type@,
                dict: Some(Map::empty()),
                payload: PayloadModel::SetValue { elements: Seq::empty() },
            },
        ),
{
}

/// A `dict` object without items
/// is put at the end of the heap, without attributes, and nothing else changes.
pub proof fn law_new_dict(
    ctx: &mut PyContext,
    r: PyObjectRef,
)
    requires
        call_ensures(PyContext::new_dict, (ctx,), r),
    ensures
        *final(ctx) == (PyContext { heap: final(ctx).heap, ..*old(ctx) }),
        r@ == old(ctx).heap@.len(),
        final(ctx).heap@ == old(ctx).heap@.push(
            ObjectModel {
                typ: old(ctx).dict_type@,
                dict: Some(Map::empty()),
                payload: PayloadModel::Dict { entries: Map::empty() },
            },
        ),
{
}

/// A module with this name and these variables
/// is put at the end of the heap, without attributes, and nothing else changes.
pub proof fn law_new_module(
    ctx: &mut PyContext,
    name: &str,
    dict: PyObjectRef,
    r: PyObjectRef,
)
    requires
        call_ensures(PyContext::new_module, (ctx, name, dict), r),
    ensures
        *final(ctx) == (PyContext { heap: final(ctx).heap, ..*old(ctx) }),
        r@ == old(ctx).heap@.len(),
        final(ctx).heap@ == old(ctx).heap@.push(
            ObjectModel {
                typ: old(ctx).module_type@,
                dict: Some(Map::empty()),
                payload: PayloadModel::Module { name: name@, dict },
            },
        ),
{
}

/// A built-in function object with this function
/// is put at the end of the heap, without attributes, and nothing else changes.
pub proof fn law_new_rustfunc(
    ctx: &mut PyContext,
    f: PyNativeFunc,
    r: PyObjectRef,
)
    requires
        call_ensures(PyContext::new_rustfunc, (ctx, f), r),
    ensures
        *final(ctx) == (PyContext { heap: final(ctx).heap, ..*old(ctx) }),
        r@ == old(ctx).heap@.len(),
        final(ctx).heap@ == old(ctx).heap@.push(
            ObjectModel {
                typ: old(ctx).builtin_function_or_method_type@,
                dict: Some(Map::empty()),
                payload: PayloadModel::BuiltinFunction { value: f },
            },
        ),
{
}

/// A frame of this code in this scope
/// is put at the end of the heap, without attributes, and nothing else changes.
pub proof fn law_new_frame(
    ctx: &mut PyContext,
    code: PyObjectRef,
    scope: Scope,
    r: PyObjectRef,
)
    requires
        call_ensures(PyContext::new_frame, (ctx, code, scope), r),
    ensures
        *final(ctx) == (PyContext { heap: final(ctx).heap, ..*old(ctx) }),
        r@ == old(ctx).heap@.len(),
        final(ctx).heap@ == old(ctx).heap@.push(
            ObjectModel {
                typ: old(ctx).frame_type@,
                dict: Some(Map::empty()),
                payload: PayloadModel::Frame {
                    code,
                    locals: scope.locals@,
                    globals: scope.globals,
                },
            },
        ),
{
}

/// A `code` object with this code
/// is put at the end of the heap, without attributes, and nothing else changes.
pub proof fn law_new_code_object(
    ctx: &mut PyContext,
    code: CodeObject,
    r: PyObjectRef,
)
    requires
        call_ensures(PyContext::new_code_object, (ctx, code), r),
    ensures
        *final(ctx) == (PyContext { heap: final(ctx).heap, ..*old(ctx) }),
        r@ == old(ctx).heap@.len(),
        final(ctx).heap@ == old(ctx).heap@.push(
            ObjectModel {
                typ: old(ctx).code_type@,
                dict: Some(Map::empty()),
                payload: PayloadModel::Code { code: code@ },
            },
        ),
{
}

/// A function of this code, scope and defaults
/// is put at the end of the heap, without attributes, and nothing else changes.
pub proof fn law_new_function(
    ctx: &mut PyContext,
    code_obj: PyObjectRef,
    scope: Scope,
    defaults: PyObjectRef,
    r: PyObjectRef,
)
    requires
        call_ensures(PyContext::new_function, (ctx, code_obj, scope, defaults), r),
    ensures
        *final(ctx) == (PyContext { heap: final(ctx).heap, ..*old(ctx) }),
        r@ == old(ctx).heap@.len(),
        final(ctx).heap@ == old(ctx).heap@.push(
            ObjectModel {
                typ: old(ctx).function_type@,
                dict: Some(Map::empty()),
                payload: PayloadModel::Function {
                    code: code_obj,
                    locals: scope.locals@,
                    globals: scope.globals,
                    defaults,
                },
            },
        ),
{
}

/// A method of this object with this function
/// is put at the end of the heap, without attributes, and nothing else changes.
pub proof fn law_new_bound_method(
    ctx: &mut PyContext,
    function: PyObjectRef,
    object: PyObjectRef,
    r: PyObjectRef,
)
    requires
        call_ensures(PyContext::new_bound_method, (ctx, function, object), r),
    ensures
        *final(ctx) == (PyContext { heap: final(ctx).heap, ..*old(ctx) }),
        r@ == old(ctx).heap@.len(),
        final(ctx).heap@ == old(ctx).heap@.push(
            ObjectModel {
                typ: old(ctx).bound_method_type@,
                dict: Some(Map::empty()),
                payload: PayloadModel::Method { object, function },
            },
        ),
{
}

/// An `int` object with this number is put at the end of the heap, without
/// attributes, and nothing else changes.
pub proof fn law_new_int_i8(ctx: &mut PyContext, n: i8, r: PyObjectRef)
    requires
        call_ensures(PyContext::new_int::<i8>, (ctx, n), r),
    ensures
        *final(ctx) == (PyContext { heap: final(ctx).heap, ..*old(ctx) }),
        r@ == old(ctx).heap@.len(),
        final(ctx).heap@ == old(ctx).heap@.push(
            ObjectModel {
                typ: old(ctx).int_type@,
                dict: Some(Map::empty()),
                payload: PayloadModel::Int { value: n as int },
            },
        ),
{
}

/// An `int` object with this number is put at the end of the heap, without
/// attributes, and nothing else changes.
pub proof fn law_new_int_i16(ctx: &mut PyContext, n: i16, r: PyObjectRef)
    requires
        call_ensures(PyContext::new_int::<i16>, (ctx, n), r),
    ensures
        *final(ctx) == (PyContext { heap: final(ctx).heap, ..*old(ctx) }),
        r@ == old(ctx).heap@.len(),
        final(ctx).heap@ == old(ctx).heap@.push(
            ObjectModel {
                typ: old(ctx).int_type@,
                dict: Some(Map::empty()),
                payload: PayloadModel::Int { value: n as int },
            },
        ),
{
}

/// An `int` object with this number is put at the end of the heap, without
/// attributes, and nothing else changes.
pub proof fn law_new_int_i32(ctx: &mut PyContext, n: i32, r: PyObjectRef)
    requires
        call_ensures(PyContext::new_int::<i32>, (ctx, n), r),
    ensures
        *final(ctx) == (PyContext { heap: final(ctx).heap, ..*old(ctx) }),
        r@ == old(ctx).heap@.len(),
        final(ctx).heap@ == old(ctx).heap@.push(
            ObjectModel {
                typ: old(ctx).int_type@,
                dict: Some(Map::empty()),
                payload: PayloadModel::Int { value: n as int },
            },
        ),
{
}

/// An `int` object with this number is put at the end of the heap, without
/// attributes, and nothing else changes.
pub proof fn law_new_int_i64(ctx: &mut PyContext, n: i64, r: PyObjectRef)
    requires
        call_ensures(PyContext::new_int::<i64>, (ctx, n), r),
    ensures
        *final(ctx) == (PyContext { heap: final(ctx).heap, ..*old(ctx) }),
        r@ == old(ctx).heap@.len(),
        final(ctx).heap@ == old(ctx).heap@.push(
            ObjectModel {
                typ: old(ctx).int_type@,
                dict: Some(Map::empty()),
                payload: PayloadModel::Int { value: n as int },
            },
        ),
{
}

/// An `int` object with this number is put at the end of the heap, without
/// attributes, and nothing else changes.
pub proof fn law_new_int_i128(ctx: &mut PyContext, n: i128, r: PyObjectRef)
    requires
        call_ensures(PyContext::new_int::<i128>, (ctx, n), r),
    ensures
        *final(ctx) == (PyContext { heap: final(ctx).heap, ..*old(ctx) }),
        r@ == old(ctx).heap@.len(),
        final(ctx).heap@ == old(ctx).heap@.push(
            ObjectModel {
                typ: old(ctx).int_type@,
                dict: Some(Map::empty()),
                payload: PayloadModel::Int { value: n as int },
            },
        ),
{
}

/// An `int` object with this number is put at the end of the heap, without
/// attributes, and nothing else changes.
pub proof fn law_new_int_isize(ctx: &mut PyContext, n: isize, r: PyObjectRef)
    requires
        call_ensures(PyContext::new_int::<isize>, (ctx, n), r),
    ensures
        *final(ctx) == (PyContext { heap: final(ctx).heap, ..*old(ctx) }),
        r@ == old(ctx).heap@.len(),
        final(ctx).heap@ == old(ctx).heap@.push(
            ObjectModel {
                typ: old(ctx).int_type@,
                dict: Some(Map::empty()),
                payload: PayloadModel::Int { value: n as int },
            },
        ),
{
}

/// An `int` object with this number is put at the end of the heap, without
/// attributes, and nothing else changes.
pub proof fn law_new_int_u8(ctx: &mut PyContext, n: u8, r: PyObjectRef)
    requires
        call_ensures(PyContext::new_int::<u8>, (ctx, n), r),
    ensures
        *final(ctx) == (PyContext { heap: final(ctx).heap, ..*old(ctx) }),
        r@ == old(ctx).heap@.len(),
        final(ctx).heap@ == old(ctx).heap@.push(
            ObjectModel {
                typ: old(ctx).int_type@,
                dict: Some(Map::empty()),
                payload: PayloadModel::Int { value: n as int },
            },
        ),
{
}

/// An `int` object with this number is put at the end of the heap, without
/// attributes, and nothing else changes.
pub proof fn law_new_int_u16(ctx: &mut PyContext, n: u16, r: PyObjectRef)
    requires
        call_ensures(PyContext::new_int::<u16>, (ctx, n), r),
    ensures
        *final(ctx) == (PyContext { heap: final(ctx).heap, ..*old(ctx) }),
        r@ == old(ctx).heap@.len(),
        final(ctx).heap@ == old(ctx).heap@.push(
            ObjectModel {
                typ: old(ctx).int_type@,
                dict: Some(Map::empty()),
                payload: PayloadModel::Int { value: n as int },
            },
        ),
{
}

/// An `int` object with this number is put at the end of the heap, without
/// attributes, and nothing else changes.
pub proof fn law_new_int_u32(ctx: &mut PyContext, n: u32, r: PyObjectRef)
    requires
        call_ensures(PyContext::new_int::<u32>, (ctx, n), r),
    ensures
        *final(ctx) == (PyContext { heap: final(ctx).heap, ..*old(ctx) }),
        r@ == old(ctx).heap@.len(),
        final(ctx).heap@ == old(ctx).heap@.push(
            ObjectModel {
                typ: old(ctx).int_type@,
                dict: Some(Map::empty()),
                payload: PayloadModel::Int { value: n as int },
            },
        ),
{
}

/// An `int` object with this number is put at the end of the heap, without
/// attributes, and nothing else changes.
pub proof fn law_new_int_u64(ctx: &mut PyContext, n: u64, r: PyObjectRef)
    requires
        call_ensures(PyContext::new_int::<u64>, (ctx, n), r),
    ensures
        *final(ctx) == (PyContext { heap: final(ctx).heap, ..*old(ctx) }),
        r@ == old(ctx).heap@.len(),
        final(ctx).heap@ == old(ctx).heap@.push(
            ObjectModel {
                typ: old(ctx).int_type@,
                dict: Some(Map::empty()),
                payload: PayloadModel::Int { value: n as int },
            },
        ),
{
}

/// An `int` object with this number is put at the end of the heap, without
/// attributes, and nothing else changes.
pub proof fn law_new_int_u128(ctx: &mut PyContext, n: u128, r: PyObjectRef)
    requires
        call_ensures(PyContext::new_int::<u128>, (ctx, n), r),
    ensures
        *final(ctx) == (PyContext { heap: final(ctx).heap, ..*old(ctx) }),
        r@ == old(ctx).heap@.len(),
        final(ctx).heap@ == old(ctx).heap@.push(
            ObjectModel {
                typ: old(ctx).int_type@,
                dict: Some(Map::empty()),
                payload: PayloadModel::Int { value: n as int },
            },
        ),
{
}

/// An `int` object with this number is put at the end of the heap, without
/// attributes, and nothing else changes.
pub proof fn law_new_int_usize(ctx: &mut PyContext, n: usize, r: PyObjectRef)
    requires
        call_ensures(PyContext::new_int::<usize>, (ctx, n), r),
    ensures
        *final(ctx) == (PyContext { heap: final(ctx).heap, ..*old(ctx) }),
        r@ == old(ctx).heap@.len(),
        final(ctx).heap@ == old(ctx).heap@.push(
            ObjectModel {
                typ: old(ctx).int_type@,
                dict: Some(Map::empty()),
                payload: PayloadModel::Int { value: n as int },
            },
        ),
{
}

/// An `int` object with this number is put at the end of the heap, without
/// attributes, and nothing else changes.
pub proof fn law_new_int_big(ctx: &mut PyContext, n: BigInt, r: PyObjectRef)
    requires
        call_ensures(PyContext::new_int::<BigInt>, (ctx, n), r),
    ensures
        *final(ctx) == (PyContext { heap: final(ctx).heap, ..*old(ctx) }),
        r@ == old(ctx).heap@.len(),
        final(ctx).heap@ == old(ctx).heap@.push(
            ObjectModel {
                typ: old(ctx).int_type@,
                dict: Some(Map::empty()),
                payload: PayloadModel::Int { value: bigint_value(n) },
            },
        ),
{
}

/// A scope has no local variables and a new `dict` object without items for the
/// global ones.
pub proof fn law_new_scope(ctx: &mut PyContext, r: Scope)
    requires
        call_ensures(PyContext::new_scope, (ctx,), r),
    ensures
        *final(ctx) == (PyContext { heap: final(ctx).heap, ..*old(ctx) }),
        r.locals@.len() == 0,
        r.globals@ == old(ctx).heap@.len(),
        final(ctx).heap@ == old(ctx).heap@.push(
            ObjectModel {
                typ: old(ctx).dict_type@,
                dict: Some(Map::empty()),
                payload: PayloadModel::Dict { entries: Map::empty() },
            },
        ),
{
}

/// A scope holds what it is made of.
pub proof fn law_scope_holds(locals: Option<PyObjectRef>, globals: PyObjectRef, r: Scope)
    requires
        call_ensures(Scope::new, (locals, globals), r),
    ensures
        r.globals == globals,
        locals is None ==> r.locals@.len() == 0,
        locals matches Some(dict) ==> r.locals@.len() == 1 && r.locals@[0] == dict,
{
}

/// A property that can only be read is put at the end of the heap, after the
/// built-in function object that is its getter, and nothing else changes.
pub proof fn law_new_property(ctx: &mut PyContext, f: PyNativeFunc, r: PyObjectRef)
    requires
        call_ensures(PyContext::new_property, (ctx, f), r),
    ensures
        *final(ctx) == (PyContext { heap: final(ctx).heap, ..*old(ctx) }),
        r@ == old(ctx).heap@.len() + 1,
        final(ctx).heap@.len() == old(ctx).heap@.len() + 2,
        forall|i: int|
            0 <= i < old(ctx).heap@.len() ==> #[trigger] final(ctx).heap@[i] == old(ctx).heap@[i],
        final(ctx).heap@[old(ctx).heap@.len() as int] == (ObjectModel {
            typ: old(ctx).builtin_function_or_method_type@,
            dict: Some(Map::empty()),
            payload: PayloadModel::BuiltinFunction { value: f },
        }),
        final(ctx).heap@[r@ as int].typ == old(ctx).readonly_property_type@,
        final(ctx).heap@[r@ as int].dict == Some(Map::<Seq<char>, PyObjectRef>::empty()),
        final(ctx).heap@[r@ as int].payload is ReadOnlyProperty,
        final(ctx).heap@[r@ as int].payload->getter@ == old(ctx).heap@.len(),
{
    lemma_place(final(ctx).heap, old(ctx).heap@.len());
}

/// A class is put at the end of the heap, without attributes: it has the given
/// name, its class is `type`, and it lists its base and then what that lists.
/// Nothing else changes.
pub proof fn law_new_class(ctx: &mut PyContext, name: &str, base: PyClassRef, r: PyClassRef)
    requires
        call_ensures(PyContext::new_class, (ctx, name, base), r),
    ensures
        *final(ctx) == (PyContext { heap: final(ctx).heap, ..*old(ctx) }),
        r@@ == old(ctx).heap@.len(),
        final(ctx).heap@ == old(ctx).heap@.push(
            ObjectModel {
                typ: old(ctx).type_type@,
                dict: Some(Map::empty()),
                payload: PayloadModel::Class {
                    name: name@,
                    mro: seq![base] + old(ctx).heap@[base@@ as int].payload->mro,
                },
            },
        ),
{
}

/// An instance of the class is put at the end of the heap, with the given
/// attributes, or with none, and nothing else changes.
pub proof fn law_new_instance(
    ctx: &mut PyContext,
    class: PyClassRef,
    dict: Option<PyAttributes>,
    r: PyObjectRef,
)
    requires
        call_ensures(PyContext::new_instance, (ctx, class, dict), r),
    ensures
        *final(ctx) == (PyContext { heap: final(ctx).heap, ..*old(ctx) }),
        r@ == old(ctx).heap@.len(),
        final(ctx).heap@ == old(ctx).heap@.push(
            ObjectModel {
                typ: class@,
                dict: Some(
                    if dict is Some {
                        dict->0@
                    } else {
                        Map::empty()
                    },
                ),
                payload: PayloadModel::Instance,
            },
        ),
{
}

/// An object is put at the end of the heap as it is made: with a place for
/// attributes or without, of the given class, and with the given payload.
pub proof fn law_object_is_put<T: PyObjectPayload>(
    heap: &mut PyHeap,
    payload: T,
    typ: PyObjectRef,
    o: PyObject<T>,
    r: PyObjectRef,
)
    ensures
        call_ensures(PyObject::<T>::new, (payload, typ, heap), r) ==> {
            &&& r@ == old(heap)@.len()
            &&& final(heap)@ == old(heap)@.push(
                ObjectModel { typ, dict: Some(Map::empty()), payload: payload.as_payload()@ },
            )
        },
        call_ensures(PyObject::<T>::new_without_dict, (payload, typ, heap), r) ==> {
            &&& r@ == old(heap)@.len()
            &&& final(heap)@ == old(heap)@.push(
                ObjectModel { typ, dict: None, payload: payload.as_payload()@ },
            )
        },
        call_ensures(PyObject::<T>::into_ref, (o, heap), r) ==> {
            &&& r@ == old(heap)@.len()
            &&& final(heap)@.len() == old(heap)@.len() + 1
            &&& final(heap)@.drop_last() == old(heap)@
            &&& final(heap)@.last().typ == o.typ
            &&& final(heap)@.last().dict is Some == o.dict is Some
            &&& o.dict is Some ==> final(heap)@.last().dict->0 == o.dict->0@
            &&& final(heap)@.last().payload == o.payload.as_payload()@
        },
{
    assert(old(heap)@.push(o.model()).drop_last() =~= old(heap)@);
}

/// What is got from the heap is the object at its place, whole.
pub proof fn law_object_is_got(heap: PyHeap, r: PyObjectRef, o: &PyObject<Payload>, b: bool)
    ensures
        call_ensures(PyHeap::get, (&heap, &r), o) ==> {
            &&& o.typ == heap@[r@ as int].typ
            &&& o.dict is Some == heap@[r@ as int].dict is Some
            &&& o.dict is Some ==> o.dict->0@ == heap@[r@ as int].dict->0
            &&& o.payload@ == heap@[r@ as int].payload
        },
        call_ensures(PyHeap::holds, (&heap, &r), b) ==> b == (r@ < heap@.len()),
{
}

/// A payload is got back, whole, by its own type.
pub proof fn law_payload_is_read<T: PyObjectPayload>(
    heap: PyHeap,
    p: PyRef<T>,
    o: PyObject<Payload>,
    b: bool,
    v: Option<&T>,
    d: &T,
)
    ensures
        call_ensures(PyObject::<Payload>::payload_is::<T>, (&o,), b) && call_ensures(
            PyObject::<Payload>::payload::<T>,
            (&o,),
            v,
        ) ==> v is Some == b,
        call_ensures(PyObject::<Payload>::payload_is::<T>, (&o,), b) ==> b == (
        payload_kind(o.payload@) == T::kind()),
        call_ensures(PyObject::<Payload>::payload::<T>, (&o,), v) && v is Some
            ==> v->0.as_payload() == o.payload,
        call_ensures(PyRef::<T>::deref, (&p, &heap), d) ==> d.as_payload()@
            == heap@[p@@ as int].payload,
{
    T::lemma_kind(o.payload@);
}

/// The type of an object is the one that it has in the heap, in whatever way it
/// is asked for.
pub proof fn law_type_is_read<T: PyObjectPayload>(
    heap: PyHeap,
    obj: PyObjectRef,
    p: PyRef<T>,
    t: PyObjectRef,
    c: PyClassRef,
)
    ensures
        call_ensures(<PyObjectRef as TypeProtocol>::typ, (&obj, &heap), t) ==> t
            == heap@[obj@ as int].typ,
        call_ensures(<PyObjectRef as TypeProtocol>::type_ref, (&obj, &heap), &t) ==> t
            == heap@[obj@ as int].typ,
        call_ensures(<PyObjectRef as TypeProtocol>::type_pyref, (&obj, &heap), c) ==> c@
            == heap@[obj@ as int].typ,
        call_ensures(PyRef::<T>::typ, (&p, &heap), c) ==> c@ == heap@[p@@ as int].typ,
        call_ensures(<PyClassRef as FromPyObjectRef>::from_pyobj, (&obj, &heap), c) ==> c@ == obj,
{
    broadcast use lemma_typed;

}

/// The type of an object that is at hand is its own.
pub proof fn law_own_type_is_read<T>(
    heap: PyHeap,
    o: PyObject<T>,
    t: PyObjectRef,
    c: PyClassRef,
)
    ensures
        call_ensures(<PyObject<T> as TypeProtocol>::typ, (&o, &heap), t) ==> t == o.typ,
        call_ensures(<PyObject<T> as TypeProtocol>::type_ref, (&o, &heap), &t) ==> t == o.typ,
        call_ensures(<PyObject<T> as TypeProtocol>::type_pyref, (&o, &heap), c) ==> c@ == o.typ,
{
}

/// A typed reference is the reference that it was made of: it is handed out
/// unchanged, and a clone of a reference is that reference.
pub proof fn law_reference_is_kept<T>(
    p: PyRef<T>,
    q: PyRef<T>,
    obj: PyObjectRef,
    r: PyObjectRef,
)
    ensures
        call_ensures(PyRef::<T>::into_object, (p,), r) ==> r == p@,
        call_ensures(PyRef::<T>::as_object, (&p,), &r) ==> r == p@,
        call_ensures(<PyRef<T> as Clone>::clone, (&p,), q) ==> q@ == p@,
        call_ensures(<PyObjectRef as Clone>::clone, (&obj,), r) ==> r == obj,
        call_ensures(<PyObjectRef as From<PyRef<T>>>::from, (p,), r) ==> r == p@,
        call_ensures(<&PyObjectRef as From<&PyRef<T>>>::from, (&p,), &r) ==> r == p@,
{
}

/// Two references have the same id exactly if they are equal, and exactly then
/// they are the same object, whichever way round they are compared.
pub proof fn law_same_id_is_same_object<T>(
    a: PyObjectRef,
    b: PyObjectRef,
    p: PyRef<T>,
    i: usize,
    j: usize,
    k: usize,
    ab: bool,
    ba: bool,
    ap: bool,
    pa: bool,
)
    requires
        call_ensures(<PyObjectRef as IdProtocol>::get_id, (&a,), i),
        call_ensures(<PyObjectRef as IdProtocol>::get_id, (&b,), j),
        call_ensures(<PyRef<T> as IdProtocol>::get_id, (&p,), k),
        call_ensures(<PyObjectRef as SameObject>::is::<PyObjectRef>, (&a, &b), ab),
        call_ensures(<PyObjectRef as SameObject>::is::<PyObjectRef>, (&b, &a), ba),
        call_ensures(<PyObjectRef as SameObject>::is::<PyRef<T>>, (&a, &p), ap),
        call_ensures(<PyRef<T> as SameObject>::is::<PyObjectRef>, (&p, &a), pa),
    ensures
        (i == j) == (a == b),
        ab == (a == b),
        ba == ab,
        ap == (a == p@),
        pa == ap,
        ap == (i == k),
{
    lemma_same_place(a, b);
    lemma_same_place(a, p@);
}

/// Two typed references are the same object exactly if they refer to the same.
pub proof fn law_same_typed_object<T, U>(p: PyRef<T>, q: PyRef<U>, r: bool)
    requires
        call_ensures(<PyRef<T> as SameObject>::is::<PyRef<U>>, (&p, &q), r),
    ensures
        r == (p@ == q@),
{
}

/// Moving an iterator changes its position, and nothing else in the heap.
pub proof fn law_iterator_is_moved(
    heap: &mut PyHeap,
    r: PyRef<PyIteratorValue>,
    position: usize,
)
    requires
        r.valid(old(heap)@),
        call_ensures(PyHeap::set_position, (heap, &r, position), ()),
    ensures
        final(heap)@.len() == old(heap)@.len(),
        forall|i: int|
            0 <= i < old(heap)@.len() && i != r@@ ==> #[trigger] final(heap)@[i] == old(heap)@[i],
        final(heap)@[r@@ as int].typ == old(heap)@[r@@ as int].typ,
        final(heap)@[r@@ as int].dict == old(heap)@[r@@ as int].dict,
        final(heap)@[r@@ as int].payload is Iterator,
        final(heap)@[r@@ as int].payload->position == position,
        final(heap)@[r@@ as int].payload->iterated_obj
            == old(heap)@[r@@ as int].payload->iterated_obj,
{
}

/// The value of a payload holds all that the payload holds.
pub proof fn law_payload_value(p: Payload)
    ensures
        match p {
            Payload::Class(v) => p@ == (PayloadModel::Class { name: v.name@, mro: v.mro@ }),
            Payload::Module(v) => p@ == (PayloadModel::Module { name: v.name@, dict: v.dict }),
            Payload::Instance(v) => p@ is Instance,
            Payload::NoneValue(v) => p@ is NoneValue,
            Payload::Ellipsis(v) => p@ is Ellipsis,
            Payload::NotImplemented(v) => p@ is NotImplemented,
            Payload::Int(v) => p@ == (PayloadModel::Int { value: bigint_value(v.value) }),
            Payload::Float(v) => p@ == (PayloadModel::Float { bits: v.bits }),
            Payload::Complex(v) => p@ == (PayloadModel::Complex { value: v.value }),
            Payload::Str(v) => p@ == (PayloadModel::Str { value: v.value@ }),
            Payload::Bytes(v) => p@ == (PayloadModel::Bytes { value: v.value@ }),
            Payload::ByteArray(v) => p@ == (PayloadModel::ByteArray { value: v.value@ }),
            Payload::Tuple(v) => p@ == (PayloadModel::Tuple { elements: v.elements@ }),
            Payload::List(v) => p@ == (PayloadModel::List { elements: v.elements@ }),
            Payload::SetValue(v) => p@ == (PayloadModel::SetValue { elements: v.elements@ }),
            Payload::Dict(v) => p@ == (PayloadModel::Dict { entries: v.entries@ }),
            Payload::BuiltinFunction(v) => p@ == (PayloadModel::BuiltinFunction {
                value: v.value,
            }),
            Payload::ReadOnlyProperty(v) => p@ == (PayloadModel::ReadOnlyProperty {
                getter: v.getter,
            }),
            Payload::Frame(v) => p@ == (PayloadModel::Frame {
                code: v.code,
                locals: v.scope.locals@,
                globals: v.scope.globals,
            }),
            Payload::Code(v) => p@ is Code && p@->Code_code.instructions
                == v.code.instructions@ && p@->Code_code.source_path == v.code.source_path@
                && p@->Code_code.first_line_number == v.code.first_line_number
                && p@->Code_code.obj_name == v.code.obj_name@,
            Payload::Function(v) => p@ == (PayloadModel::Function {
                code: v.code,
                locals: v.scope.locals@,
                globals: v.scope.globals,
                defaults: v.defaults,
            }),
            Payload::Method(v) => p@ == (PayloadModel::Method {
                object: v.object,
                function: v.function,
            }),
            Payload::Iterator(v) => p@ == (PayloadModel::Iterator {
                position: v.position as nat,
                iterated_obj: v.iterated_obj,
            }),
        },
{
}

/// A value of a payload type is the payload of its kind that holds it.
pub proof fn law_payload_of_value<T: PyObjectPayload>(v: T, p: Payload)
    requires
        call_ensures(T::into_payload, (v,), p),
    ensures
        p == v.as_payload(),
        payload_kind(p@) == T::kind(),
{
    T::lemma_kind(p@);
}

/// A copy of a code object is the same code.
pub proof fn law_code_is_copied(c: CodeObject, r: CodeObject)
    requires
        call_ensures(<CodeObject as Clone>::clone, (&c,), r),
    ensures
        r.instructions@ == c.instructions@,
        r.source_path@ == c.source_path@,
        r.first_line_number == c.first_line_number,
        r.obj_name@ == c.obj_name@,
{
}

/// Each value is the payload of the variant that is named after its type, and
/// only such payloads are of its type.
pub proof fn law_values_are_payloads(p: PayloadModel)
    ensures
        forall|v: PyClass| #[trigger] v.as_payload() == Payload::Class(v),
        forall|v: PyModule| #[trigger] v.as_payload() == Payload::Module(v),
        forall|v: PyInstance| #[trigger] v.as_payload() == Payload::Instance(v),
        forall|v: PyNone| #[trigger] v.as_payload() == Payload::NoneValue(v),
        forall|v: PyEllipsis| #[trigger] v.as_payload() == Payload::Ellipsis(v),
        forall|v: PyNotImplemented| #[trigger] v.as_payload() == Payload::NotImplemented(v),
        forall|v: PyInt| #[trigger] v.as_payload() == Payload::Int(v),
        forall|v: PyFloat| #[trigger] v.as_payload() == Payload::Float(v),
        forall|v: PyComplex| #[trigger] v.as_payload() == Payload::Complex(v),
        forall|v: PyString| #[trigger] v.as_payload() == Payload::Str(v),
        forall|v: PyBytes| #[trigger] v.as_payload() == Payload::Bytes(v),
        forall|v: PyByteArray| #[trigger] v.as_payload() == Payload::ByteArray(v),
        forall|v: PyTuple| #[trigger] v.as_payload() == Payload::Tuple(v),
        forall|v: PyList| #[trigger] v.as_payload() == Payload::List(v),
        forall|v: PySet| #[trigger] v.as_payload() == Payload::SetValue(v),
        forall|v: PyDict| #[trigger] v.as_payload() == Payload::Dict(v),
        forall|v: PyBuiltinFunction| #[trigger] v.as_payload() == Payload::BuiltinFunction(v),
        forall|v: PyReadOnlyProperty| #[trigger] v.as_payload() == Payload::ReadOnlyProperty(v),
        forall|v: Frame| #[trigger] v.as_payload() == Payload::Frame(v),
        forall|v: PyCode| #[trigger] v.as_payload() == Payload::Code(v),
        forall|v: PyFunction| #[trigger] v.as_payload() == Payload::Function(v),
        forall|v: PyMethod| #[trigger] v.as_payload() == Payload::Method(v),
        forall|v: PyIteratorValue| #[trigger] v.as_payload() == Payload::Iterator(v),
        PyClass::is_model(p) == p is Class,
        PyModule::is_model(p) == p is Module,
        PyInstance::is_model(p) == p is Instance,
        PyNone::is_model(p) == p is NoneValue,
        PyEllipsis::is_model(p) == p is Ellipsis,
        PyNotImplemented::is_model(p) == p is NotImplemented,
        PyInt::is_model(p) == p is Int,
        PyFloat::is_model(p) == p is Float,
        PyComplex::is_model(p) == p is Complex,
        PyString::is_model(p) == p is Str,
        PyBytes::is_model(p) == p is Bytes,
        PyByteArray::is_model(p) == p is ByteArray,
        PyTuple::is_model(p) == p is Tuple,
        PyList::is_model(p) == p is List,
        PySet::is_model(p) == p is SetValue,
        PyDict::is_model(p) == p is Dict,
        PyBuiltinFunction::is_model(p) == p is BuiltinFunction,
        PyReadOnlyProperty::is_model(p) == p is ReadOnlyProperty,
        Frame::is_model(p) == p is Frame,
        PyCode::is_model(p) == p is Code,
        PyFunction::is_model(p) == p is Function,
        PyMethod::is_model(p) == p is Method,
        PyIteratorValue::is_model(p) == p is Iterator,
{
}

/// A typed reference is valid in a heap exactly if its object is there and is of
/// the kind of its type.
pub proof fn law_valid<T: PyObjectPayload>(p: PyRef<T>, h: HeapModel)
    ensures
        p.valid(h) == (p@@ < h.len() && payload_kind(h[p@@ as int].payload) == T::kind()),
{
    T::lemma_kind(h[p@@ as int].payload);
}

/// No object of a heap that is in order refers to an object that is not in it:
/// not its type, none of its attributes, and nothing that it carries. The classes
/// that a class lists are classes.
pub proof fn law_no_reference_dangles(heap: PyHeap, i: int)
    requires
        heap.wf(),
        0 <= i < heap@.len(),
    ensures
        heap@[i].typ@ < heap@.len(),
        heap@[i].dict is Some ==> forall|k: Seq<char>| #[trigger]
            heap@[i].dict->0.contains_key(k) ==> heap@[i].dict->0[k]@ < heap@.len(),
        match heap@[i].payload {
            PayloadModel::Class { name, mro } => forall|j: int|
                0 <= j < mro.len() ==> (#[trigger] mro[j])@@ < heap@.len()
                    && heap@[mro[j]@@ as int].payload is Class,
            PayloadModel::Module { name, dict } => dict@ < heap@.len(),
            PayloadModel::Tuple { elements } => forall|j: int|
                0 <= j < elements.len() ==> (#[trigger] elements[j])@ < heap@.len(),
            PayloadModel::List { elements } => forall|j: int|
                0 <= j < elements.len() ==> (#[trigger] elements[j])@ < heap@.len(),
            PayloadModel::SetValue { elements } => forall|j: int|
                0 <= j < elements.len() ==> (#[trigger] elements[j])@ < heap@.len(),
            PayloadModel::Dict { entries } => forall|k: Seq<char>| #[trigger]
                entries.contains_key(k) ==> entries[k].0@ < heap@.len() && entries[k].1@
                    < heap@.len(),
            PayloadModel::ReadOnlyProperty { getter } => getter@ < heap@.len(),
            PayloadModel::Frame { code, locals, globals } => {
                &&& code@ < heap@.len() && globals@ < heap@.len()
                &&& forall|j: int|
                    0 <= j < locals.len() ==> (#[trigger] locals[j])@ < heap@.len()
            },
            PayloadModel::Function { code, locals, globals, defaults } => {
                &&& code@ < heap@.len() && globals@ < heap@.len() && defaults@ < heap@.len()
                &&& forall|j: int|
                    0 <= j < locals.len() ==> (#[trigger] locals[j])@ < heap@.len()
            },
            PayloadModel::Method { object, function } => object@ < heap@.len() && function@
                < heap@.len(),
            PayloadModel::Iterator { position, iterated_obj } => iterated_obj@ < heap@.len(),
            _ => true,
        },
{
    assert(object_fits(heap@, i as nat, heap@[i]));
}

/// The heap holds all of some objects exactly if it holds each of them.
pub proof fn law_heap_holds_all(
    heap: PyHeap,
    refs: Vec<PyObjectRef>,
    classes: Vec<PyClassRef>,
    entries: DictContent,
    b: bool,
)
    ensures
        call_ensures(PyHeap::holds_all, (&heap, &refs), b) ==> b == (forall|i: int|
            0 <= i < refs@.len() ==> (#[trigger] refs@[i])@ < heap@.len()),
        call_ensures(PyHeap::holds_classes, (&heap, &classes), b) ==> b == (forall|i: int|
            0 <= i < classes@.len() ==> (#[trigger] classes@[i])@@ < heap@.len()
                && heap@[classes@[i]@@ as int].payload is Class),
        call_ensures(PyHeap::holds_entries, (&heap, &entries), b) ==> b == (forall|k: Seq<char>|
         #[trigger]
            entries@.contains_key(k) ==> entries@[k].0@ < heap@.len() && entries@[k].1@
                < heap@.len()),
{
    if call_ensures(PyHeap::holds_all, (&heap, &refs), b) {
        assert(b == all_in_heap(heap@, refs@));
    }
    if call_ensures(PyHeap::holds_classes, (&heap, &classes), b) {
        assert(b == all_classes(heap@, classes@));
    }
    if call_ensures(PyHeap::holds_entries, (&heap, &entries), b) {
        assert(b == entries_fit(heap@, entries@));
    }
}

/// A payload fits a heap exactly if the heap holds all that it refers to.
pub proof fn law_payload_fits_a_heap(
    heap: PyHeap,
    class: PyClass,
    module: PyModule,
    tuple: PyTuple,
    list: PyList,
    set: PySet,
    dict: PyDict,
    property: PyReadOnlyProperty,
    frame: Frame,
    function: PyFunction,
    method: PyMethod,
    iterator: PyIteratorValue,
    b: bool,
)
    ensures
        call_ensures(<PyClass as PyObjectPayload>::fits_heap, (&class, &heap), b) ==> b == (forall|
            i: int,
        |
            0 <= i < class.mro@.len() ==> (#[trigger] class.mro@[i])@@ < heap@.len()
                && heap@[class.mro@[i]@@ as int].payload is Class),
        call_ensures(<PyModule as PyObjectPayload>::fits_heap, (&module, &heap), b) ==> b == (
        module.dict@ < heap@.len()),
        call_ensures(<PyTuple as PyObjectPayload>::fits_heap, (&tuple, &heap), b) ==> b == (forall|
            i: int,
        |
            0 <= i < tuple.elements@.len() ==> (#[trigger] tuple.elements@[i])@ < heap@.len()),
        call_ensures(<PyList as PyObjectPayload>::fits_heap, (&list, &heap), b) ==> b == (forall|
            i: int,
        |
            0 <= i < list.elements@.len() ==> (#[trigger] list.elements@[i])@ < heap@.len()),
        call_ensures(<PySet as PyObjectPayload>::fits_heap, (&set, &heap), b) ==> b == (forall|
            i: int,
        |
            0 <= i < set.elements@.len() ==> (#[trigger] set.elements@[i])@ < heap@.len()),
        call_ensures(<PyDict as PyObjectPayload>::fits_heap, (&dict, &heap), b) ==> b == (forall|
            k: Seq<char>,
        | #[trigger]
            dict.entries@.contains_key(k) ==> dict.entries@[k].0@ < heap@.len()
                && dict.entries@[k].1@ < heap@.len()),
        call_ensures(<PyReadOnlyProperty as PyObjectPayload>::fits_heap, (&property, &heap), b)
            ==> b == (property.getter@ < heap@.len()),
        call_ensures(<Frame as PyObjectPayload>::fits_heap, (&frame, &heap), b) ==> b == (
        frame.code@ < heap@.len() && frame.scope.globals@ < heap@.len() && forall|i: int|
            0 <= i < frame.scope.locals@.len() ==> (#[trigger] frame.scope.locals@[i])@
                < heap@.len()),
        call_ensures(<PyFunction as PyObjectPayload>::fits_heap, (&function, &heap), b) ==> b == (
        function.code@ < heap@.len() && function.scope.globals@ < heap@.len()
            && function.defaults@ < heap@.len() && forall|i: int|
            0 <= i < function.scope.locals@.len() ==> (#[trigger] function.scope.locals@[i])@
                < heap@.len()),
        call_ensures(<PyMethod as PyObjectPayload>::fits_heap, (&method, &heap), b) ==> b == (
        method.object@ < heap@.len() && method.function@ < heap@.len()),
        call_ensures(<PyIteratorValue as PyObjectPayload>::fits_heap, (&iterator, &heap), b)
            ==> b == (iterator.iterated_obj@ < heap@.len()),
{
    let h = heap@;
    let mro = class.mro@;
    assert(payload_fits(h, h.len(), class.as_payload()@) == (forall|i: int|
        0 <= i < mro.len() ==> (#[trigger] mro[i])@@ < h.len()
            && h[mro[i]@@ as int].payload is Class)) by {
        if payload_fits(h, h.len(), class.as_payload()@) {
            assert forall|i: int| 0 <= i < mro.len() implies (#[trigger] mro[i])@@ < h.len()
                && h[mro[i]@@ as int].payload is Class by {
                assert(class.as_payload()@->mro[i] == mro[i]);
            }
        }
    }
    assert(payload_fits(h, h.len(), tuple.as_payload()@) == all_in_heap(h, tuple.elements@));
    assert(payload_fits(h, h.len(), list.as_payload()@) == all_in_heap(h, list.elements@));
    assert(payload_fits(h, h.len(), set.as_payload()@) == all_in_heap(h, set.elements@));
    assert(payload_fits(h, h.len(), dict.as_payload()@) == entries_fit(h, dict.entries@));
    let f = frame.as_payload()@;
    assert(payload_fits(h, h.len(), f) == (frame.code@ < h.len() && all_in_heap(
        h,
        frame.scope.locals@,
    ) && frame.scope.globals@ < h.len()));
    let g = function.as_payload()@;
    assert(payload_fits(h, h.len(), g) == (function.code@ < h.len() && all_in_heap(
        h,
        function.scope.locals@,
    ) && function.scope.globals@ < h.len() && function.defaults@ < h.len()));
}

/// A payload that refers to nothing fits every heap.
pub proof fn law_plain_payload_fits_every_heap(heap: PyHeap, b: bool)
    ensures
        forall|v: PyInstance| #[trigger]
            call_ensures(<PyInstance as PyObjectPayload>::fits_heap, (&v, &heap), b) ==> b,
        forall|v: PyNone| #[trigger]
            call_ensures(<PyNone as PyObjectPayload>::fits_heap, (&v, &heap), b) ==> b,
        forall|v: PyEllipsis| #[trigger]
            call_ensures(<PyEllipsis as PyObjectPayload>::fits_heap, (&v, &heap), b) ==> b,
        forall|v: PyNotImplemented| #[trigger]
            call_ensures(<PyNotImplemented as PyObjectPayload>::fits_heap, (&v, &heap), b) ==> b,
        forall|v: PyInt| #[trigger]
            call_ensures(<PyInt as PyObjectPayload>::fits_heap, (&v, &heap), b) ==> b,
        forall|v: PyFloat| #[trigger]
            call_ensures(<PyFloat as PyObjectPayload>::fits_heap, (&v, &heap), b) ==> b,
        forall|v: PyComplex| #[trigger]
            call_ensures(<PyComplex as PyObjectPayload>::fits_heap, (&v, &heap), b) ==> b,
        forall|v: PyString| #[trigger]
            call_ensures(<PyString as PyObjectPayload>::fits_heap, (&v, &heap), b) ==> b,
        forall|v: PyBytes| #[trigger]
            call_ensures(<PyBytes as PyObjectPayload>::fits_heap, (&v, &heap), b) ==> b,
        forall|v: PyByteArray| #[trigger]
            call_ensures(<PyByteArray as PyObjectPayload>::fits_heap, (&v, &heap), b) ==> b,
        forall|v: PyBuiltinFunction| #[trigger]
            call_ensures(<PyBuiltinFunction as PyObjectPayload>::fits_heap, (&v, &heap), b) ==> b,
        forall|v: PyCode| #[trigger]
            call_ensures(<PyCode as PyObjectPayload>::fits_heap, (&v, &heap), b) ==> b,
{
}

/// A number becomes what `Into` makes of it, in the payload and in the object.
pub proof fn law_number_is_held<T: Into<BigInt>>(
    ctx: &mut PyContext,
    i: T,
    p: PyInt,
    r: PyObjectRef,
)
    ensures
        call_ensures(PyInt::new::<T>, (i,), p) ==> call_ensures(
            <T as Into<BigInt>>::into,
            (i,),
            p.value,
        ),
        call_ensures(PyContext::new_int::<T>, (ctx, i), r) ==> exists|value: BigInt|
            {
                &&& #[trigger] call_ensures(<T as Into<BigInt>>::into, (i,), value)
                &&& r@ == old(ctx).heap@.len()
                &&& final(ctx).heap@ == old(ctx).heap@.push(
                    ObjectModel {
                        typ: old(ctx).int_type@,
                        dict: Some(Map::empty()),
                        payload: PayloadModel::Int { value: bigint_value(value) },
                    },
                )
            },
{
    if call_ensures(PyContext::new_int::<T>, (ctx, i), r) {
        let value = choose|value: BigInt| #[trigger]
            call_ensures(<T as Into<BigInt>>::into, (i,), value) && allocated(
                old(ctx).heap@,
                final(ctx).heap@,
                r,
                plain_object(
                    old(ctx).int_type@,
                    PayloadModel::Int { value: bigint_value(value) },
                ),
            );
        assert(call_ensures(<T as Into<BigInt>>::into, (i,), value));
    }
}

/// Typed references can stand for the object and for the value whose attribute is
/// set.
pub proof fn law_attribute_by_typed_references<P, Q>(
    ctx: &mut PyContext,
    p: PyRef<P>,
    name: &str,
    q: PyRef<Q>,
)
    requires
        p@@ < old(ctx).heap@.len(),
        !(old(ctx).heap@[p@@ as int].payload is Module),
        old(ctx).heap@[p@@ as int].dict is Some,
        call_ensures(PyContext::set_attr::<&PyRef<P>, PyRef<Q>>, (ctx, &p, name, q), ()),
    ensures
        final(ctx).heap@.len() == old(ctx).heap@.len(),
        forall|i: int|
            0 <= i < old(ctx).heap@.len() && i != p@@ ==> #[trigger] final(ctx).heap@[i] == old(
                ctx
            ).heap@[i],
        final(ctx).heap@[p@@ as int].dict is Some,
        final(ctx).heap@[p@@ as int].dict->0 == old(ctx).heap@[p@@ as int].dict->0.insert(
            name@,
            q@,
        ),
        final(ctx).heap@[p@@ as int].payload == old(ctx).heap@[p@@ as int].payload,
        final(ctx).heap@[p@@ as int].typ == old(ctx).heap@[p@@ as int].typ,
{
}

} // verus!
