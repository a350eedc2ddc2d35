//! What classes inherit from and what objects are instances of, read from the
//! heap.
use crate::context::{all_have_attributes, create_type, derived, lemma_derived_valid, PyContext};
use crate::exceptions::ExceptionZoo;
use crate::frame::Frame;
use crate::object::{
    is_class, lemma_same_ref, lemma_typed, object_fits, HeapModel, ObjectModel, PyClassRef, PyHeap,
    PyObjectRef,
};
use crate::objtype;
use crate::objtype::{get_type_name, hierarchy, isinstance, issubclass};
use crate::payload::{
    PayloadModel, PyAttributes, PyBuiltinFunction, PyByteArray, PyBytes, PyClass, PyCode, PyComplex,
    PyDict, PyEllipsis, PyFloat, PyFunction, PyInstance, PyInt, PyIteratorValue, PyList, PyMethod,
    PyModule, PyNone, PyNotImplemented, PyReadOnlyProperty, PySet, PyString, PyTuple,
};
use crate::value::PyValue;
use vstd::prelude::*;

verus! {

/// A class is a subclass of itself and of the classes that its list of classes
/// names, and of no other.
pub proof fn law_subclass_of_listed_classes(
    sub: PyClassRef,
    cls: PyClassRef,
    heap: PyHeap,
    r: bool,
)
    requires
        call_ensures(issubclass, (&sub, &cls, &heap), r),
    ensures
        r == (sub@ == cls@ || exists|i: int|
            0 <= i < heap@[sub@@ as int].payload->mro.len() && (
            #[trigger] heap@[sub@@ as int].payload->mro[i])@ == cls@),
{
    let mro = heap@[sub@@ as int].payload->mro;
    if exists|i: int| 0 <= i < mro.len() && (#[trigger] mro[i])@ == cls@ {
        let i = choose|i: int| 0 <= i < mro.len() && (#[trigger] mro[i])@ == cls@;
        assert(objtype::class_mro(heap@, sub@)[i]@ == cls@);
    }
    if r && sub@ != cls@ {
        let m = objtype::class_mro(heap@, sub@);
        let i = choose|i: int| 0 <= i < m.len() && (#[trigger] m[i])@ == cls@;
        assert(mro[i]@ == cls@);
    }
}

/// An object is an instance of its type and of the classes that the list of
/// classes of its type names, and of no other: being an instance is the type
/// being a subclass.
pub proof fn law_instance_by_type(
    obj: PyObjectRef,
    typ: PyClassRef,
    cls: PyClassRef,
    heap: PyHeap,
    r: bool,
    s: bool,
)
    requires
        call_ensures(isinstance, (&obj, &cls, &heap), r),
        typ@ == heap@[obj@ as int].typ,
        call_ensures(issubclass, (&typ, &cls, &heap), s),
    ensures
        r == s,
        r == (typ@ == cls@ || exists|i: int|
            0 <= i < heap@[typ@@ as int].payload->mro.len() && (
            #[trigger] heap@[typ@@ as int].payload->mro[i])@ == cls@),
{
    law_subclass_of_listed_classes(typ, cls, heap, s);
}

/// An object of a class is not an instance of another class that inherits from
/// that class.
pub proof fn law_base_is_no_instance_of_derived(
    obj: PyObjectRef,
    base: PyClassRef,
    cls: PyClassRef,
    heap: PyHeap,
    r: bool,
    inherits: bool,
)
    requires
        heap.wf(),
        base.valid(heap@),
        cls.valid(heap@),
        base@ != cls@,
        call_ensures(issubclass, (&cls, &base, &heap), inherits),
        inherits,
        heap@[obj@ as int].typ == base@,
        call_ensures(isinstance, (&obj, &cls, &heap), r),
    ensures
        !r,
{
    law_subclass_of_listed_classes(cls, base, heap, inherits);
    let up = heap@[cls@@ as int].payload->mro;
    assert(object_fits(heap@, cls@@, heap@[cls@@ as int]));
    assert(object_fits(heap@, base@@, heap@[base@@ as int]));
    let i = choose|i: int| 0 <= i < up.len() && (#[trigger] up[i])@ == base@;
    assert(up[i]@@ < cls@@);
    if r {
        let m = objtype::class_mro(heap@, base@);
        let j = choose|j: int| 0 <= j < m.len() && (#[trigger] m[j])@ == cls@;
        assert(m[j]@@ < base@@);
    }
}

/// The name of a class is the one that it carries.
pub proof fn law_type_name(typ: PyObjectRef, heap: PyHeap, name: String)
    requires
        call_ensures(get_type_name, (&typ, &heap), name),
    ensures
        name@ == heap@[typ@ as int].payload->Class_name,
{
}

/// A new class is put at the end of the heap, has the given name and lists its
/// base and then what its base lists; its class is the given one, and nothing
/// else changes.
pub proof fn law_class_is_made(
    heap: &mut PyHeap,
    typ: PyObjectRef,
    name: &str,
    base: PyClassRef,
    dict: PyAttributes,
    r: PyClassRef,
)
    requires
        call_ensures(objtype::new, (typ, name, &base, dict, heap), r),
    ensures
        r@@ == old(heap)@.len(),
        final(heap)@ == old(heap)@.push(
            ObjectModel {
                typ,
                dict: Some(dict@),
                payload: PayloadModel::Class {
                    name: name@,
                    mro: seq![base] + old(heap)@[base@@ as int].payload->mro,
                },
            },
        ),
{
}

/// A new built-in type is a new class without attributes.
pub proof fn law_type_is_created(
    heap: &mut PyHeap,
    name: &str,
    meta: PyClassRef,
    base: PyClassRef,
    r: PyClassRef,
)
    requires
        call_ensures(create_type, (name, &meta, &base, heap), r),
    ensures
        r@@ == old(heap)@.len(),
        final(heap)@ == old(heap)@.push(
            ObjectModel {
                typ: meta@,
                dict: Some(Map::empty()),
                payload: PayloadModel::Class {
                    name: name@,
                    mro: seq![base] + old(heap)@[base@@ as int].payload->mro,
                },
            },
        ),
{
}

/// `r` refers to a class with this name and these classes to inherit from, whose
/// class is `meta`.
spec fn class_is(
    h: HeapModel,
    r: PyClassRef,
    name: Seq<char>,
    mro: Seq<PyClassRef>,
    meta: PyClassRef,
) -> bool {
    &&& r@@ < h.len()
    &&& h[r@@ as int].typ == meta@
    &&& h[r@@ as int].dict is Some
    &&& h[r@@ as int].payload == (PayloadModel::Class { name, mro })
}

proof fn lemma_class_is(
    h: HeapModel,
    r: PyClassRef,
    name: Seq<char>,
    meta: PyClassRef,
    base: PyClassRef,
    above: Seq<PyClassRef>,
)
    requires
        derived(h, r, name, meta, base),
        h[base@@ as int].payload->mro == above,
    ensures
        class_is(h, r, name, seq![base] + above, meta),
{
    lemma_derived_valid(h, r, name, meta, base);
}

/// Every built-in type carries its name and lists what it inherits from: `bool`
/// and `code` inherit from `int`, `StopIteration` and `TypeError` from
/// `Exception`, that from `BaseException`, and all from `object`. The class of
/// each is `type`, and each has a place for attributes.
pub proof fn law_builtin_types_carry(ctx: PyContext)
    requires
        ctx.wf(),
    ensures

        ctx.heap@[ctx.object@@ as int].payload == (PayloadModel::Class {
            name: "object"@,
            mro: Seq::empty(),
        }),
        ctx.heap@[ctx.type_type@@ as int].payload == (PayloadModel::Class {
            name: "type"@,
            mro: seq![ctx.object],
        }),
        ctx.heap@[ctx.dict_type@@ as int].payload == (PayloadModel::Class {
            name: "dict"@,
            mro: seq![ctx.object],
        }),
        ctx.heap@[ctx.module_type@@ as int].payload == (PayloadModel::Class {
            name: "module"@,
            mro: seq![ctx.object],
        }),
        ctx.heap@[ctx.classmethod_type@@ as int].payload == (PayloadModel::Class {
            name: "classmethod"@,
            mro: seq![ctx.object],
        }),
        ctx.heap@[ctx.staticmethod_type@@ as int].payload == (PayloadModel::Class {
            name: "staticmethod"@,
            mro: seq![ctx.object],
        }),
        ctx.heap@[ctx.function_type@@ as int].payload == (PayloadModel::Class {
            name: "function"@,
            mro: seq![ctx.object],
        }),
        ctx.heap@[ctx.builtin_function_or_method_type@@ as int].payload == (PayloadModel::Class {
            name: "builtin_function_or_method"@,
            mro: seq![ctx.object],
        }),
        ctx.heap@[ctx.property_type@@ as int].payload == (PayloadModel::Class {
            name: "property"@,
            mro: seq![ctx.object],
        }),
        ctx.heap@[ctx.readonly_property_type@@ as int].payload == (PayloadModel::Class {
            name: "readonly_property"@,
            mro: seq![ctx.object],
        }),
        ctx.heap@[ctx.super_type@@ as int].payload == (PayloadModel::Class {
            name: "super"@,
            mro: seq![ctx.object],
        }),
        ctx.heap@[ctx.weakref_type@@ as int].payload == (PayloadModel::Class {
            name: "ref"@,
            mro: seq![ctx.object],
        }),
        ctx.heap@[ctx.generator_type@@ as int].payload == (PayloadModel::Class {
            name: "generator"@,
            mro: seq![ctx.object],
        }),
        ctx.heap@[ctx.bound_method_type@@ as int].payload == (PayloadModel::Class {
            name: "method"@,
            mro: seq![ctx.object],
        }),
        ctx.heap@[ctx.str_type@@ as int].payload == (PayloadModel::Class {
            name: "str"@,
            mro: seq![ctx.object],
        }),
        ctx.heap@[ctx.list_type@@ as int].payload == (PayloadModel::Class {
            name: "list"@,
            mro: seq![ctx.object],
        }),
        ctx.heap@[ctx.set_type@@ as int].payload == (PayloadModel::Class {
            name: "set"@,
            mro: seq![ctx.object],
        }),
        ctx.heap@[ctx.frozenset_type@@ as int].payload == (PayloadModel::Class {
            name: "frozenset"@,
            mro: seq![ctx.object],
        }),
        ctx.heap@[ctx.int_type@@ as int].payload == (PayloadModel::Class {
            name: "int"@,
            mro: seq![ctx.object],
        }),
        ctx.heap@[ctx.float_type@@ as int].payload == (PayloadModel::Class {
            name: "float"@,
            mro: seq![ctx.object],
        }),
        ctx.heap@[ctx.frame_type@@ as int].payload == (PayloadModel::Class {
            name: "frame"@,
            mro: seq![ctx.object],
        }),
        ctx.heap@[ctx.complex_type@@ as int].payload == (PayloadModel::Class {
            name: "complex"@,
            mro: seq![ctx.object],
        }),
        ctx.heap@[ctx.bytes_type@@ as int].payload == (PayloadModel::Class {
            name: "bytes"@,
            mro: seq![ctx.object],
        }),
        ctx.heap@[ctx.bytearray_type@@ as int].payload == (PayloadModel::Class {
            name: "bytearray"@,
            mro: seq![ctx.object],
        }),
        ctx.heap@[ctx.tuple_type@@ as int].payload == (PayloadModel::Class {
            name: "tuple"@,
            mro: seq![ctx.object],
        }),
        ctx.heap@[ctx.iter_type@@ as int].payload == (PayloadModel::Class {
            name: "iter"@,
            mro: seq![ctx.object],
        }),
        ctx.heap@[ctx.enumerate_type@@ as int].payload == (PayloadModel::Class {
            name: "enumerate"@,
            mro: seq![ctx.object],
        }),
        ctx.heap@[ctx.filter_type@@ as int].payload == (PayloadModel::Class {
            name: "filter"@,
            mro: seq![ctx.object],
        }),
        ctx.heap@[ctx.map_type@@ as int].payload == (PayloadModel::Class {
            name: "map"@,
            mro: seq![ctx.object],
        }),
        ctx.heap@[ctx.zip_type@@ as int].payload == (PayloadModel::Class {
            name: "zip"@,
            mro: seq![ctx.object],
        }),
        ctx.heap@[ctx.bool_type@@ as int].payload == (PayloadModel::Class {
            name: "bool"@,
            mro: seq![ctx.int_type, ctx.object],
        }),
        ctx.heap@[ctx.memoryview_type@@ as int].payload == (PayloadModel::Class {
            name: "memoryview"@,
            mro: seq![ctx.object],
        }),
        ctx.heap@[ctx.code_type@@ as int].payload == (PayloadModel::Class {
            name: "code"@,
            mro: seq![ctx.int_type, ctx.object],
        }),
        ctx.heap@[ctx.range_type@@ as int].payload == (PayloadModel::Class {
            name: "range"@,
            mro: seq![ctx.object],
        }),
        ctx.heap@[ctx.slice_type@@ as int].payload == (PayloadModel::Class {
            name: "slice"@,
            mro: seq![ctx.object],
        }),
        ctx.heap@[ctx.ellipsis_type@@ as int].payload == (PayloadModel::Class {
            name: "EllipsisType"@,
            mro: seq![ctx.object],
        }),
        ctx.heap@[ctx.exceptions.base_exception_type@@ as int].payload == (PayloadModel::Class {
            name: "BaseException"@,
            mro: seq![ctx.object],
        }),
        ctx.heap@[ctx.exceptions.exception_type@@ as int].payload == (PayloadModel::Class {
            name: "Exception"@,
            mro: seq![ctx.exceptions.base_exception_type, ctx.object],
        }),
        ctx.heap@[ctx.exceptions.stop_iteration@@ as int].payload == (PayloadModel::Class {
            name: "StopIteration"@,
            mro: seq![
                ctx.exceptions.exception_type,
                ctx.exceptions.base_exception_type,
                ctx.object,
            ],
        }),
        ctx.heap@[ctx.exceptions.type_error@@ as int].payload == (PayloadModel::Class {
            name: "TypeError"@,
            mro: seq![
                ctx.exceptions.exception_type,
                ctx.exceptions.base_exception_type,
                ctx.object,
            ],
        }),
        ctx.object@@ < ctx.heap@.len() && ctx.heap@[ctx.object@@ as int].typ == ctx.type_type@,
        ctx.heap@[ctx.object@@ as int].dict is Some,
        ctx.type_type@@ < ctx.heap@.len()
            && ctx.heap@[ctx.type_type@@ as int].typ == ctx.type_type@,
        ctx.heap@[ctx.type_type@@ as int].dict is Some,
        ctx.dict_type@@ < ctx.heap@.len()
            && ctx.heap@[ctx.dict_type@@ as int].typ == ctx.type_type@,
        ctx.heap@[ctx.dict_type@@ as int].dict is Some,
        ctx.module_type@@ < ctx.heap@.len()
            && ctx.heap@[ctx.module_type@@ as int].typ == ctx.type_type@,
        ctx.heap@[ctx.module_type@@ as int].dict is Some,
        ctx.classmethod_type@@ < ctx.heap@.len()
            && ctx.heap@[ctx.classmethod_type@@ as int].typ == ctx.type_type@,
        ctx.heap@[ctx.classmethod_type@@ as int].dict is Some,
        ctx.staticmethod_type@@ < ctx.heap@.len()
            && ctx.heap@[ctx.staticmethod_type@@ as int].typ == ctx.type_type@,
        ctx.heap@[ctx.staticmethod_type@@ as int].dict is Some,
        ctx.function_type@@ < ctx.heap@.len()
            && ctx.heap@[ctx.function_type@@ as int].typ == ctx.type_type@,
        ctx.heap@[ctx.function_type@@ as int].dict is Some,
        ctx.builtin_function_or_method_type@@ < ctx.heap@.len()
            && ctx.heap@[ctx.builtin_function_or_method_type@@ as int].typ == ctx.type_type@,
        ctx.heap@[ctx.builtin_function_or_method_type@@ as int].dict is Some,
        ctx.property_type@@ < ctx.heap@.len()
            && ctx.heap@[ctx.property_type@@ as int].typ == ctx.type_type@,
        ctx.heap@[ctx.property_type@@ as int].dict is Some,
        ctx.readonly_property_type@@ < ctx.heap@.len()
            && ctx.heap@[ctx.readonly_property_type@@ as int].typ == ctx.type_type@,
        ctx.heap@[ctx.readonly_property_type@@ as int].dict is Some,
        ctx.super_type@@ < ctx.heap@.len()
            && ctx.heap@[ctx.super_type@@ as int].typ == ctx.type_type@,
        ctx.heap@[ctx.super_type@@ as int].dict is Some,
        ctx.weakref_type@@ < ctx.heap@.len()
            && ctx.heap@[ctx.weakref_type@@ as int].typ == ctx.type_type@,
        ctx.heap@[ctx.weakref_type@@ as int].dict is Some,
        ctx.generator_type@@ < ctx.heap@.len()
            && ctx.heap@[ctx.generator_type@@ as int].typ == ctx.type_type@,
        ctx.heap@[ctx.generator_type@@ as int].dict is Some,
        ctx.bound_method_type@@ < ctx.heap@.len()
            && ctx.heap@[ctx.bound_method_type@@ as int].typ == ctx.type_type@,
        ctx.heap@[ctx.bound_method_type@@ as int].dict is Some,
        ctx.str_type@@ < ctx.heap@.len() && ctx.heap@[ctx.str_type@@ as int].typ == ctx.type_type@,
        ctx.heap@[ctx.str_type@@ as int].dict is Some,
        ctx.list_type@@ < ctx.heap@.len()
            && ctx.heap@[ctx.list_type@@ as int].typ == ctx.type_type@,
        ctx.heap@[ctx.list_type@@ as int].dict is Some,
        ctx.set_type@@ < ctx.heap@.len() && ctx.heap@[ctx.set_type@@ as int].typ == ctx.type_type@,
        ctx.heap@[ctx.set_type@@ as int].dict is Some,
        ctx.frozenset_type@@ < ctx.heap@.len()
            && ctx.heap@[ctx.frozenset_type@@ as int].typ == ctx.type_type@,
        ctx.heap@[ctx.frozenset_type@@ as int].dict is Some,
        ctx.int_type@@ < ctx.heap@.len() && ctx.heap@[ctx.int_type@@ as int].typ == ctx.type_type@,
        ctx.heap@[ctx.int_type@@ as int].dict is Some,
        ctx.float_type@@ < ctx.heap@.len()
            && ctx.heap@[ctx.float_type@@ as int].typ == ctx.type_type@,
        ctx.heap@[ctx.float_type@@ as int].dict is Some,
        ctx.frame_type@@ < ctx.heap@.len()
            && ctx.heap@[ctx.frame_type@@ as int].typ == ctx.type_type@,
        ctx.heap@[ctx.frame_type@@ as int].dict is Some,
        ctx.complex_type@@ < ctx.heap@.len()
            && ctx.heap@[ctx.complex_type@@ as int].typ == ctx.type_type@,
        ctx.heap@[ctx.complex_type@@ as int].dict is Some,
        ctx.bytes_type@@ < ctx.heap@.len()
            && ctx.heap@[ctx.bytes_type@@ as int].typ == ctx.type_type@,
        ctx.heap@[ctx.bytes_type@@ as int].dict is Some,
        ctx.bytearray_type@@ < ctx.heap@.len()
            && ctx.heap@[ctx.bytearray_type@@ as int].typ == ctx.type_type@,
        ctx.heap@[ctx.bytearray_type@@ as int].dict is Some,
        ctx.tuple_type@@ < ctx.heap@.len()
            && ctx.heap@[ctx.tuple_type@@ as int].typ == ctx.type_type@,
        ctx.heap@[ctx.tuple_type@@ as int].dict is Some,
        ctx.iter_type@@ < ctx.heap@.len()
            && ctx.heap@[ctx.iter_type@@ as int].typ == ctx.type_type@,
        ctx.heap@[ctx.iter_type@@ as int].dict is Some,
        ctx.enumerate_type@@ < ctx.heap@.len()
            && ctx.heap@[ctx.enumerate_type@@ as int].typ == ctx.type_type@,
        ctx.heap@[ctx.enumerate_type@@ as int].dict is Some,
        ctx.filter_type@@ < ctx.heap@.len()
            && ctx.heap@[ctx.filter_type@@ as int].typ == ctx.type_type@,
        ctx.heap@[ctx.filter_type@@ as int].dict is Some,
        ctx.map_type@@ < ctx.heap@.len() && ctx.heap@[ctx.map_type@@ as int].typ == ctx.type_type@,
        ctx.heap@[ctx.map_type@@ as int].dict is Some,
        ctx.zip_type@@ < ctx.heap@.len() && ctx.heap@[ctx.zip_type@@ as int].typ == ctx.type_type@,
        ctx.heap@[ctx.zip_type@@ as int].dict is Some,
        ctx.bool_type@@ < ctx.heap@.len()
            && ctx.heap@[ctx.bool_type@@ as int].typ == ctx.type_type@,
        ctx.heap@[ctx.bool_type@@ as int].dict is Some,
        ctx.memoryview_type@@ < ctx.heap@.len()
            && ctx.heap@[ctx.memoryview_type@@ as int].typ == ctx.type_type@,
        ctx.heap@[ctx.memoryview_type@@ as int].dict is Some,
        ctx.code_type@@ < ctx.heap@.len()
            && ctx.heap@[ctx.code_type@@ as int].typ == ctx.type_type@,
        ctx.heap@[ctx.code_type@@ as int].dict is Some,
        ctx.range_type@@ < ctx.heap@.len()
            && ctx.heap@[ctx.range_type@@ as int].typ == ctx.type_type@,
        ctx.heap@[ctx.range_type@@ as int].dict is Some,
        ctx.slice_type@@ < ctx.heap@.len()
            && ctx.heap@[ctx.slice_type@@ as int].typ == ctx.type_type@,
        ctx.heap@[ctx.slice_type@@ as int].dict is Some,
        ctx.ellipsis_type@@ < ctx.heap@.len()
            && ctx.heap@[ctx.ellipsis_type@@ as int].typ == ctx.type_type@,
        ctx.heap@[ctx.ellipsis_type@@ as int].dict is Some,
        ctx.exceptions.base_exception_type@@ < ctx.heap@.len()
            && ctx.heap@[ctx.exceptions.base_exception_type@@ as int].typ == ctx.type_type@,
        ctx.heap@[ctx.exceptions.base_exception_type@@ as int].dict is Some,
        ctx.exceptions.exception_type@@ < ctx.heap@.len()
            && ctx.heap@[ctx.exceptions.exception_type@@ as int].typ == ctx.type_type@,
        ctx.heap@[ctx.exceptions.exception_type@@ as int].dict is Some,
        ctx.exceptions.stop_iteration@@ < ctx.heap@.len()
            && ctx.heap@[ctx.exceptions.stop_iteration@@ as int].typ == ctx.type_type@,
        ctx.heap@[ctx.exceptions.stop_iteration@@ as int].dict is Some,
        ctx.exceptions.type_error@@ < ctx.heap@.len()
            && ctx.heap@[ctx.exceptions.type_error@@ as int].typ == ctx.type_type@,
        ctx.heap@[ctx.exceptions.type_error@@ as int].dict is Some,
{
    broadcast use lemma_derived_valid;

    let h = ctx.heap@;
    let meta = ctx.type_type;
    let object = ctx.object;
    let none: Seq<PyClassRef> = Seq::empty();
    assert(seq![object] + none =~= seq![object]);
    lemma_class_is(h, ctx.type_type, "type"@, meta, ctx.object, none);
    lemma_class_is(h, ctx.dict_type, "dict"@, meta, ctx.object, none);
    lemma_class_is(h, ctx.module_type, "module"@, meta, ctx.object, none);
    lemma_class_is(h, ctx.classmethod_type, "classmethod"@, meta, ctx.object, none);
    lemma_class_is(h, ctx.staticmethod_type, "staticmethod"@, meta, ctx.object, none);
    lemma_class_is(h, ctx.function_type, "function"@, meta, ctx.object, none);
    lemma_class_is(
        h,
        ctx.builtin_function_or_method_type,
        "builtin_function_or_method"@,
        meta,
        ctx.object,
        none,
    );
    lemma_class_is(h, ctx.property_type, "property"@, meta, ctx.object, none);
    lemma_class_is(h, ctx.readonly_property_type, "readonly_property"@, meta, ctx.object, none);
    lemma_class_is(h, ctx.super_type, "super"@, meta, ctx.object, none);
    lemma_class_is(h, ctx.weakref_type, "ref"@, meta, ctx.object, none);
    lemma_class_is(h, ctx.generator_type, "generator"@, meta, ctx.object, none);
    lemma_class_is(h, ctx.bound_method_type, "method"@, meta, ctx.object, none);
    lemma_class_is(h, ctx.str_type, "str"@, meta, ctx.object, none);
    lemma_class_is(h, ctx.list_type, "list"@, meta, ctx.object, none);
    lemma_class_is(h, ctx.set_type, "set"@, meta, ctx.object, none);
    lemma_class_is(h, ctx.frozenset_type, "frozenset"@, meta, ctx.object, none);
    lemma_class_is(h, ctx.int_type, "int"@, meta, ctx.object, none);
    lemma_class_is(h, ctx.float_type, "float"@, meta, ctx.object, none);
    lemma_class_is(h, ctx.frame_type, "frame"@, meta, ctx.object, none);
    lemma_class_is(h, ctx.complex_type, "complex"@, meta, ctx.object, none);
    lemma_class_is(h, ctx.bytes_type, "bytes"@, meta, ctx.object, none);
    lemma_class_is(h, ctx.bytearray_type, "bytearray"@, meta, ctx.object, none);
    lemma_class_is(h, ctx.tuple_type, "tuple"@, meta, ctx.object, none);
    lemma_class_is(h, ctx.iter_type, "iter"@, meta, ctx.object, none);
    lemma_class_is(h, ctx.enumerate_type, "enumerate"@, meta, ctx.object, none);
    lemma_class_is(h, ctx.filter_type, "filter"@, meta, ctx.object, none);
    lemma_class_is(h, ctx.map_type, "map"@, meta, ctx.object, none);
    lemma_class_is(h, ctx.zip_type, "zip"@, meta, ctx.object, none);
    lemma_class_is(h, ctx.bool_type, "bool"@, meta, ctx.int_type, seq![ctx.object]);
    assert(seq![ctx.int_type] + seq![ctx.object] =~= seq![ctx.int_type, ctx.object]);
    lemma_class_is(h, ctx.memoryview_type, "memoryview"@, meta, ctx.object, none);
    lemma_class_is(h, ctx.code_type, "code"@, meta, ctx.int_type, seq![ctx.object]);
    assert(seq![ctx.int_type] + seq![ctx.object] =~= seq![ctx.int_type, ctx.object]);
    lemma_class_is(h, ctx.range_type, "range"@, meta, ctx.object, none);
    lemma_class_is(h, ctx.slice_type, "slice"@, meta, ctx.object, none);
    lemma_class_is(h, ctx.ellipsis_type, "EllipsisType"@, meta, ctx.object, none);
    lemma_class_is(h, ctx.exceptions.base_exception_type, "BaseException"@, meta, ctx.object, none);
    lemma_class_is(
        h,
        ctx.exceptions.exception_type,
        "Exception"@,
        meta,
        ctx.exceptions.base_exception_type,
        seq![ctx.object],
    );
    assert(seq![ctx.exceptions.base_exception_type] + seq![ctx.object]
        =~= seq![ctx.exceptions.base_exception_type, ctx.object]);
    lemma_class_is(
        h,
        ctx.exceptions.stop_iteration,
        "StopIteration"@,
        meta,
        ctx.exceptions.exception_type,
        seq![ctx.exceptions.base_exception_type, ctx.object],
    );
    lemma_class_is(
        h,
        ctx.exceptions.type_error,
        "TypeError"@,
        meta,
        ctx.exceptions.exception_type,
        seq![ctx.exceptions.base_exception_type, ctx.object],
    );
    let zoo = ctx.exceptions;
    assert(seq![zoo.exception_type] + seq![zoo.base_exception_type, object] =~= seq![
        zoo.exception_type,
        zoo.base_exception_type,
        object,
    ]);
}

/// The built-in values carry what their names say and are objects of the types
/// that their names say.
pub proof fn law_builtin_values_carry(ctx: PyContext)
    requires
        ctx.wf(),
    ensures

        ctx.none@@ < ctx.heap@.len() && ctx.heap@[ctx.none@@ as int].dict is Some,
        ctx.heap@[ctx.none@@ as int].payload == (PayloadModel::NoneValue),
        ctx.heap@[ctx.heap@[ctx.none@@ as int].typ@ as int].payload->Class_name == "NoneType"@,
        ctx.ellipsis@@ < ctx.heap@.len() && ctx.heap@[ctx.ellipsis@@ as int].dict is Some,
        ctx.heap@[ctx.ellipsis@@ as int].payload == (PayloadModel::Ellipsis),
        ctx.heap@[ctx.heap@[ctx.ellipsis@@ as int].typ@ as int].payload->Class_name
            == "EllipsisType"@,
        ctx.not_implemented@@ < ctx.heap@.len()
            && ctx.heap@[ctx.not_implemented@@ as int].dict is Some,
        ctx.heap@[ctx.not_implemented@@ as int].payload == (PayloadModel::NotImplemented),
        ctx.heap@[ctx.heap@[ctx.not_implemented@@ as int].typ@ as int].payload->Class_name
            == "NotImplementedType"@,
        ctx.true_value@@ < ctx.heap@.len() && ctx.heap@[ctx.true_value@@ as int].dict is Some,
        ctx.heap@[ctx.true_value@@ as int].payload == (PayloadModel::Int { value: 1 }),
        ctx.heap@[ctx.heap@[ctx.true_value@@ as int].typ@ as int].payload->Class_name == "bool"@,
        ctx.false_value@@ < ctx.heap@.len() && ctx.heap@[ctx.false_value@@ as int].dict is Some,
        ctx.heap@[ctx.false_value@@ as int].payload == (PayloadModel::Int { value: 0 }),
        ctx.heap@[ctx.heap@[ctx.false_value@@ as int].typ@ as int].payload->Class_name == "bool"@,
        ctx.heap@[ctx.ellipsis@@ as int].typ == ctx.ellipsis_type@,
        ctx.heap@[ctx.true_value@@ as int].typ == ctx.bool_type@,
        ctx.heap@[ctx.false_value@@ as int].typ == ctx.bool_type@,
{
    broadcast use {lemma_derived_valid, lemma_typed};

}

/// Every type that the context hands out carries the name of the function that
/// hands it out, without the ending `_type` (`weakref_type` is `ref`,
/// `bound_method_type` is `method`).
pub proof fn law_types_are_handed_out(ctx: PyContext, r: PyClassRef)
    requires
        ctx.wf(),
    ensures

        call_ensures(PyContext::object, (&ctx,), r) ==> ctx.heap@[r@@ as int].payload->Class_name
            == "object"@,
        call_ensures(PyContext::type_type, (&ctx,), r) ==> ctx.heap@[r@@ as int].payload->Class_name
            == "type"@,
        call_ensures(PyContext::dict_type, (&ctx,), r) ==> ctx.heap@[r@@ as int].payload->Class_name
            == "dict"@,
        call_ensures(PyContext::module_type, (&ctx,), r)
            ==> ctx.heap@[r@@ as int].payload->Class_name
            == "module"@,
        call_ensures(PyContext::classmethod_type, (&ctx,), r)
            ==> ctx.heap@[r@@ as int].payload->Class_name
            == "classmethod"@,
        call_ensures(PyContext::staticmethod_type, (&ctx,), r)
            ==> ctx.heap@[r@@ as int].payload->Class_name
            == "staticmethod"@,
        call_ensures(PyContext::function_type, (&ctx,), r)
            ==> ctx.heap@[r@@ as int].payload->Class_name
            == "function"@,
        call_ensures(PyContext::builtin_function_or_method_type, (&ctx,), r)
            ==> ctx.heap@[r@@ as int].payload->Class_name
            == "builtin_function_or_method"@,
        call_ensures(PyContext::property_type, (&ctx,), r)
            ==> ctx.heap@[r@@ as int].payload->Class_name
            == "property"@,
        call_ensures(PyContext::readonly_property_type, (&ctx,), r)
            ==> ctx.heap@[r@@ as int].payload->Class_name
            == "readonly_property"@,
        call_ensures(PyContext::super_type, (&ctx,), r)
            ==> ctx.heap@[r@@ as int].payload->Class_name
            == "super"@,
        call_ensures(PyContext::weakref_type, (&ctx,), r)
            ==> ctx.heap@[r@@ as int].payload->Class_name
            == "ref"@,
        call_ensures(PyContext::generator_type, (&ctx,), r)
            ==> ctx.heap@[r@@ as int].payload->Class_name
            == "generator"@,
        call_ensures(PyContext::bound_method_type, (&ctx,), r)
            ==> ctx.heap@[r@@ as int].payload->Class_name
            == "method"@,
        call_ensures(PyContext::str_type, (&ctx,), r) ==> ctx.heap@[r@@ as int].payload->Class_name
            == "str"@,
        call_ensures(PyContext::list_type, (&ctx,), r) ==> ctx.heap@[r@@ as int].payload->Class_name
            == "list"@,
        call_ensures(PyContext::set_type, (&ctx,), r) ==> ctx.heap@[r@@ as int].payload->Class_name
            == "set"@,
        call_ensures(PyContext::frozenset_type, (&ctx,), r)
            ==> ctx.heap@[r@@ as int].payload->Class_name
            == "frozenset"@,
        call_ensures(PyContext::int_type, (&ctx,), r) ==> ctx.heap@[r@@ as int].payload->Class_name
            == "int"@,
        call_ensures(PyContext::float_type, (&ctx,), r)
            ==> ctx.heap@[r@@ as int].payload->Class_name
            == "float"@,
        call_ensures(PyContext::frame_type, (&ctx,), r)
            ==> ctx.heap@[r@@ as int].payload->Class_name
            == "frame"@,
        call_ensures(PyContext::complex_type, (&ctx,), r)
            ==> ctx.heap@[r@@ as int].payload->Class_name
            == "complex"@,
        call_ensures(PyContext::bytes_type, (&ctx,), r)
            ==> ctx.heap@[r@@ as int].payload->Class_name
            == "bytes"@,
        call_ensures(PyContext::bytearray_type, (&ctx,), r)
            ==> ctx.heap@[r@@ as int].payload->Class_name
            == "bytearray"@,
        call_ensures(PyContext::tuple_type, (&ctx,), r)
            ==> ctx.heap@[r@@ as int].payload->Class_name
            == "tuple"@,
        call_ensures(PyContext::iter_type, (&ctx,), r) ==> ctx.heap@[r@@ as int].payload->Class_name
            == "iter"@,
        call_ensures(PyContext::enumerate_type, (&ctx,), r)
            ==> ctx.heap@[r@@ as int].payload->Class_name
            == "enumerate"@,
        call_ensures(PyContext::filter_type, (&ctx,), r)
            ==> ctx.heap@[r@@ as int].payload->Class_name
            == "filter"@,
        call_ensures(PyContext::map_type, (&ctx,), r) ==> ctx.heap@[r@@ as int].payload->Class_name
            == "map"@,
        call_ensures(PyContext::zip_type, (&ctx,), r) ==> ctx.heap@[r@@ as int].payload->Class_name
            == "zip"@,
        call_ensures(PyContext::bool_type, (&ctx,), r) ==> ctx.heap@[r@@ as int].payload->Class_name
            == "bool"@,
        call_ensures(PyContext::memoryview_type, (&ctx,), r)
            ==> ctx.heap@[r@@ as int].payload->Class_name
            == "memoryview"@,
        call_ensures(PyContext::code_type, (&ctx,), r) ==> ctx.heap@[r@@ as int].payload->Class_name
            == "code"@,
        call_ensures(PyContext::range_type, (&ctx,), r)
            ==> ctx.heap@[r@@ as int].payload->Class_name
            == "range"@,
        call_ensures(PyContext::slice_type, (&ctx,), r)
            ==> ctx.heap@[r@@ as int].payload->Class_name
            == "slice"@,
{
    broadcast use lemma_derived_valid;

}

/// The values that the context hands out carry what their names say.
pub proof fn law_values_are_handed_out(ctx: PyContext, b: bool, r: PyObjectRef)
    requires
        ctx.wf(),
    ensures
        call_ensures(PyContext::none, (&ctx,), r) ==> ctx.heap@[r@ as int].payload is NoneValue
            && r == ctx.none@,
        call_ensures(PyContext::ellipsis, (&ctx,), r) ==> ctx.heap@[r@ as int].payload is Ellipsis
            && r == ctx.ellipsis@,
        call_ensures(PyContext::not_implemented, (&ctx,), r)
            ==> ctx.heap@[r@ as int].payload is NotImplemented && r == ctx.not_implemented@,
        call_ensures(PyContext::new_bool, (&ctx, b), r) ==> ctx.heap@[r@ as int].typ
            == ctx.bool_type@,
        call_ensures(PyContext::new_bool, (&ctx, true), r) ==> ctx.heap@[r@ as int].payload == (
        PayloadModel::Int { value: 1 }) && r == ctx.true_value@,
        call_ensures(PyContext::new_bool, (&ctx, false), r) ==> ctx.heap@[r@ as int].payload == (
        PayloadModel::Int { value: 0 }) && r == ctx.false_value@,
{
}

/// The class of each type of payload is the built-in type with the right name.
pub proof fn law_payloads_have_their_classes(ctx: PyContext, r: PyClassRef)
    requires
        ctx.wf(),
    ensures

        call_ensures(<PyClass as PyValue>::class, (&ctx,), r)
            ==> ctx.heap@[r@@ as int].payload->Class_name == "type"@,
        call_ensures(<PyModule as PyValue>::class, (&ctx,), r)
            ==> ctx.heap@[r@@ as int].payload->Class_name == "module"@,
        call_ensures(<PyInstance as PyValue>::class, (&ctx,), r)
            ==> ctx.heap@[r@@ as int].payload->Class_name == "object"@,
        call_ensures(<PyNone as PyValue>::class, (&ctx,), r)
            ==> ctx.heap@[r@@ as int].payload->Class_name == "NoneType"@,
        call_ensures(<PyEllipsis as PyValue>::class, (&ctx,), r)
            ==> ctx.heap@[r@@ as int].payload->Class_name == "EllipsisType"@,
        call_ensures(<PyNotImplemented as PyValue>::class, (&ctx,), r)
            ==> ctx.heap@[r@@ as int].payload->Class_name == "NotImplementedType"@,
        call_ensures(<PyInt as PyValue>::class, (&ctx,), r)
            ==> ctx.heap@[r@@ as int].payload->Class_name == "int"@,
        call_ensures(<PyFloat as PyValue>::class, (&ctx,), r)
            ==> ctx.heap@[r@@ as int].payload->Class_name == "float"@,
        call_ensures(<PyComplex as PyValue>::class, (&ctx,), r)
            ==> ctx.heap@[r@@ as int].payload->Class_name == "complex"@,
        call_ensures(<PyString as PyValue>::class, (&ctx,), r)
            ==> ctx.heap@[r@@ as int].payload->Class_name == "str"@,
        call_ensures(<PyBytes as PyValue>::class, (&ctx,), r)
            ==> ctx.heap@[r@@ as int].payload->Class_name == "bytes"@,
        call_ensures(<PyByteArray as PyValue>::class, (&ctx,), r)
            ==> ctx.heap@[r@@ as int].payload->Class_name == "bytearray"@,
        call_ensures(<PyTuple as PyValue>::class, (&ctx,), r)
            ==> ctx.heap@[r@@ as int].payload->Class_name == "tuple"@,
        call_ensures(<PyList as PyValue>::class, (&ctx,), r)
            ==> ctx.heap@[r@@ as int].payload->Class_name == "list"@,
        call_ensures(<PySet as PyValue>::class, (&ctx,), r)
            ==> ctx.heap@[r@@ as int].payload->Class_name == "set"@,
        call_ensures(<PyDict as PyValue>::class, (&ctx,), r)
            ==> ctx.heap@[r@@ as int].payload->Class_name == "dict"@,
        call_ensures(<PyBuiltinFunction as PyValue>::class, (&ctx,), r)
            ==> ctx.heap@[r@@ as int].payload->Class_name == "builtin_function_or_method"@,
        call_ensures(<PyReadOnlyProperty as PyValue>::class, (&ctx,), r)
            ==> ctx.heap@[r@@ as int].payload->Class_name == "readonly_property"@,
        call_ensures(<Frame as PyValue>::class, (&ctx,), r)
            ==> ctx.heap@[r@@ as int].payload->Class_name == "frame"@,
        call_ensures(<PyCode as PyValue>::class, (&ctx,), r)
            ==> ctx.heap@[r@@ as int].payload->Class_name == "code"@,
        call_ensures(<PyFunction as PyValue>::class, (&ctx,), r)
            ==> ctx.heap@[r@@ as int].payload->Class_name == "function"@,
        call_ensures(<PyMethod as PyValue>::class, (&ctx,), r)
            ==> ctx.heap@[r@@ as int].payload->Class_name == "method"@,
        call_ensures(<PyIteratorValue as PyValue>::class, (&ctx,), r)
            ==> ctx.heap@[r@@ as int].payload->Class_name == "iter"@,
        ctx.heap@[<PyClass as PyValue>::class_in(ctx)@@ as int].payload->Class_name == "type"@,
        ctx.heap@[<PyModule as PyValue>::class_in(ctx)@@ as int].payload->Class_name == "module"@,
        ctx.heap@[<PyInstance as PyValue>::class_in(ctx)@@ as int].payload->Class_name == "object"@,
        ctx.heap@[<PyNone as PyValue>::class_in(ctx)@@ as int].payload->Class_name == "NoneType"@,
        ctx.heap@[<PyEllipsis as PyValue>::class_in(ctx)@@ as int].payload->Class_name
            == "EllipsisType"@,
        ctx.heap@[<PyNotImplemented as PyValue>::class_in(ctx)@@ as int].payload->Class_name
            == "NotImplementedType"@,
        ctx.heap@[<PyInt as PyValue>::class_in(ctx)@@ as int].payload->Class_name == "int"@,
        ctx.heap@[<PyFloat as PyValue>::class_in(ctx)@@ as int].payload->Class_name == "float"@,
        ctx.heap@[<PyComplex as PyValue>::class_in(ctx)@@ as int].payload->Class_name == "complex"@,
        ctx.heap@[<PyString as PyValue>::class_in(ctx)@@ as int].payload->Class_name == "str"@,
        ctx.heap@[<PyBytes as PyValue>::class_in(ctx)@@ as int].payload->Class_name == "bytes"@,
        ctx.heap@[<PyByteArray as PyValue>::class_in(ctx)@@ as int].payload->Class_name
            == "bytearray"@,
        ctx.heap@[<PyTuple as PyValue>::class_in(ctx)@@ as int].payload->Class_name == "tuple"@,
        ctx.heap@[<PyList as PyValue>::class_in(ctx)@@ as int].payload->Class_name == "list"@,
        ctx.heap@[<PySet as PyValue>::class_in(ctx)@@ as int].payload->Class_name == "set"@,
        ctx.heap@[<PyDict as PyValue>::class_in(ctx)@@ as int].payload->Class_name == "dict"@,
        ctx.heap@[<PyBuiltinFunction as PyValue>::class_in(ctx)@@ as int].payload->Class_name
            == "builtin_function_or_method"@,
        ctx.heap@[<PyReadOnlyProperty as PyValue>::class_in(ctx)@@ as int].payload->Class_name
            == "readonly_property"@,
        ctx.heap@[<Frame as PyValue>::class_in(ctx)@@ as int].payload->Class_name == "frame"@,
        ctx.heap@[<PyCode as PyValue>::class_in(ctx)@@ as int].payload->Class_name == "code"@,
        ctx.heap@[<PyFunction as PyValue>::class_in(ctx)@@ as int].payload->Class_name
            == "function"@,
        ctx.heap@[<PyMethod as PyValue>::class_in(ctx)@@ as int].payload->Class_name == "method"@,
        ctx.heap@[<PyIteratorValue as PyValue>::class_in(ctx)@@ as int].payload->Class_name
            == "iter"@,
        <PyClass as PyValue>::class_in(ctx)@ == ctx.type_type@,
        <PyModule as PyValue>::class_in(ctx)@ == ctx.module_type@,
        <PyInstance as PyValue>::class_in(ctx)@ == ctx.object@,
        <PyEllipsis as PyValue>::class_in(ctx)@ == ctx.ellipsis_type@,
        <PyInt as PyValue>::class_in(ctx)@ == ctx.int_type@,
        <PyFloat as PyValue>::class_in(ctx)@ == ctx.float_type@,
        <PyComplex as PyValue>::class_in(ctx)@ == ctx.complex_type@,
        <PyString as PyValue>::class_in(ctx)@ == ctx.str_type@,
        <PyBytes as PyValue>::class_in(ctx)@ == ctx.bytes_type@,
        <PyByteArray as PyValue>::class_in(ctx)@ == ctx.bytearray_type@,
        <PyTuple as PyValue>::class_in(ctx)@ == ctx.tuple_type@,
        <PyList as PyValue>::class_in(ctx)@ == ctx.list_type@,
        <PySet as PyValue>::class_in(ctx)@ == ctx.set_type@,
        <PyDict as PyValue>::class_in(ctx)@ == ctx.dict_type@,
        <PyBuiltinFunction as PyValue>::class_in(ctx)@ == ctx.builtin_function_or_method_type@,
        <PyReadOnlyProperty as PyValue>::class_in(ctx)@ == ctx.readonly_property_type@,
        <Frame as PyValue>::class_in(ctx)@ == ctx.frame_type@,
        <PyCode as PyValue>::class_in(ctx)@ == ctx.code_type@,
        <PyFunction as PyValue>::class_in(ctx)@ == ctx.function_type@,
        <PyMethod as PyValue>::class_in(ctx)@ == ctx.bound_method_type@,
        <PyIteratorValue as PyValue>::class_in(ctx)@ == ctx.iter_type@,
        <PyNone as PyValue>::class_in(ctx)@ == ctx.heap@[ctx.none@@ as int].typ,
        <PyNotImplemented as PyValue>::class_in(ctx)@
            == ctx.heap@[ctx.not_implemented@@ as int].typ,
{
    broadcast use {lemma_derived_valid, lemma_typed, lemma_same_ref};

}

/// Every class of a new context is `object` or lists it, and the type of every
/// object is a class. Every object has a place for attributes.
pub proof fn law_new_context(ctx: PyContext)
    requires
        call_ensures(PyContext::new, (), ctx) || call_ensures(
            <PyContext as Default>::default,
            (),
            ctx,
        ),
    ensures
        ctx.wf(),
        forall|i: int|
            0 <= i < ctx.heap@.len() ==> {
                &&& (#[trigger] ctx.heap@[i]).dict is Some
                &&& ctx.heap@[i].typ@ < ctx.heap@.len()
                &&& ctx.heap@[ctx.heap@[i].typ@ as int].payload is Class
            },
        forall|c: PyObjectRef| #[trigger]
            is_class(ctx.heap@, c) && c != ctx.object@ ==> exists|i: int|
                0 <= i < ctx.heap@[c@ as int].payload->mro.len() && (
                #[trigger] ctx.heap@[c@ as int].payload->mro[i])@ == ctx.object@,
{
    reveal(hierarchy);
    reveal(all_have_attributes);
    assert forall|c: PyObjectRef| #[trigger]
        is_class(ctx.heap@, c) && c != ctx.object@ implies exists|i: int|
        0 <= i < ctx.heap@[c@ as int].payload->mro.len() && (
        #[trigger] ctx.heap@[c@ as int].payload->mro[i])@ == ctx.object@ by {
        assert(objtype::subclass(ctx.heap@, c, ctx.object@));
        let m = objtype::class_mro(ctx.heap@, c);
        let i = choose|i: int| 0 <= i < m.len() && (#[trigger] m[i])@ == ctx.object@;
        assert(ctx.heap@[c@ as int].payload->mro[i]@ == ctx.object@);
    }
    assert forall|i: int| 0 <= i < ctx.heap@.len() implies {
        &&& (#[trigger] ctx.heap@[i]).dict is Some
        &&& ctx.heap@[i].typ@ < ctx.heap@.len()
        &&& ctx.heap@[ctx.heap@[i].typ@ as int].payload is Class
    } by {
        assert(is_class(ctx.heap@, ctx.heap@[i].typ));
    }
}

/// The classes of the exceptions are put at the end of the heap: each carries its
/// name and lists what it inherits from, and no other object changes.
pub proof fn law_exceptions_are_made(
    heap: &mut PyHeap,
    meta: PyClassRef,
    object: PyClassRef,
    zoo: ExceptionZoo,
)
    requires
        call_ensures(ExceptionZoo::new, (&meta, &object, heap), zoo),
        object@@ < old(heap)@.len(),
        old(heap)@[object@@ as int].payload is Class,
    ensures
        final(heap)@.len() == old(heap)@.len() + 4,
        forall|i: int| 0 <= i < old(heap)@.len() ==> #[trigger] final(heap)@[i] == old(heap)@[i],
        final(heap)@[zoo.base_exception_type@@ as int].payload == (PayloadModel::Class {
            name: "BaseException"@,
            mro: seq![object] + old(heap)@[object@@ as int].payload->mro,
        }),
        final(heap)@[zoo.exception_type@@ as int].payload == (PayloadModel::Class {
            name: "Exception"@,
            mro: seq![zoo.base_exception_type, object]
                + old(heap)@[object@@ as int].payload->mro,
        }),
        final(heap)@[zoo.stop_iteration@@ as int].payload == (PayloadModel::Class {
            name: "StopIteration"@,
            mro: seq![zoo.exception_type, zoo.base_exception_type, object]
                + old(heap)@[object@@ as int].payload->mro,
        }),
        final(heap)@[zoo.type_error@@ as int].payload == (PayloadModel::Class {
            name: "TypeError"@,
            mro: seq![zoo.exception_type, zoo.base_exception_type, object]
                + old(heap)@[object@@ as int].payload->mro,
        }),
        final(heap)@[zoo.base_exception_type@@ as int].typ == meta@,
        final(heap)@[zoo.exception_type@@ as int].typ == meta@,
        final(heap)@[zoo.stop_iteration@@ as int].typ == meta@,
        final(heap)@[zoo.type_error@@ as int].typ == meta@,
{
    broadcast use lemma_derived_valid;

    let h = final(heap)@;
    let above = old(heap)@[object@@ as int].payload->mro;
    let base = zoo.base_exception_type;
    let exception = zoo.exception_type;
    assert(h[base@@ as int].payload->mro =~= seq![object] + above);
    assert(h[exception@@ as int].payload->mro =~= seq![base, object] + above);
    assert(h[zoo.stop_iteration@@ as int].payload->mro =~= seq![exception, base, object] + above);
    assert(h[zoo.type_error@@ as int].payload->mro =~= seq![exception, base, object] + above);
}

/// An exception that is an `Exception` and no more does not end an iteration,
/// an `int` that is no more is no `bool`, and a `StopIteration` is an
/// `Exception`.
pub proof fn law_builtin_instances(ctx: PyContext, obj: PyObjectRef, r: bool)
    requires
        ctx.wf(),
    ensures
        ctx.heap@[obj@ as int].typ == ctx.exceptions.exception_type@ && call_ensures(
            isinstance,
            (&obj, &ctx.exceptions.stop_iteration, &ctx.heap),
            r,
        ) ==> !r,
        ctx.heap@[obj@ as int].typ == ctx.int_type@ && call_ensures(
            isinstance,
            (&obj, &ctx.bool_type, &ctx.heap),
            r,
        ) ==> !r,
        ctx.heap@[obj@ as int].typ == ctx.bool_type@ && call_ensures(
            isinstance,
            (&obj, &ctx.int_type, &ctx.heap),
            r,
        ) ==> r,
        ctx.heap@[obj@ as int].typ == ctx.exceptions.stop_iteration@ && call_ensures(
            isinstance,
            (&obj, &ctx.exceptions.exception_type, &ctx.heap),
            r,
        ) ==> r,
{
    law_builtin_types_carry(ctx);
    let h = ctx.heap@;
    assert(h[ctx.bool_type@@ as int].payload->mro[0] == ctx.int_type);
    assert(h[ctx.exceptions.stop_iteration@@ as int].payload->mro[0]
        == ctx.exceptions.exception_type);
    assert(objtype::class_mro(h, ctx.bool_type@)[0] == ctx.int_type);
    assert(objtype::class_mro(h, ctx.exceptions.stop_iteration@)[0]
        == ctx.exceptions.exception_type);
    assert(object_fits(h, ctx.int_type@@, h[ctx.int_type@@ as int]));
    assert(object_fits(h, ctx.bool_type@@, h[ctx.bool_type@@ as int]));
    let zoo = ctx.exceptions;
    assert(object_fits(h, zoo.exception_type@@, h[zoo.exception_type@@ as int]));
    assert(object_fits(h, zoo.stop_iteration@@, h[zoo.stop_iteration@@ as int]));
    assert(ctx.int_type@@ < ctx.bool_type@@);
    assert(zoo.exception_type@@ < zoo.stop_iteration@@);
}

} // verus!
