//! The context: the built-in types and the constructors of objects.
use crate::exceptions::ExceptionZoo;
use crate::object::{
    allocated, grows, in_heap, init_type_hierarchy, is_class, object_at, plain_object, HeapModel,
    payload_fits, typed, lemma_same_place, lemma_same_ref, lemma_typed, PyClassRef, PyHeap,
    PyObject, PyObjectRef, PyRef,
};
use crate::objtype;
use crate::objtype::{class_mro, hierarchy, lemma_hierarchy_class, lemma_hierarchy_grows, mro_below};
use crate::payload::{
    PayloadModel, PyAttributes, PyEllipsis, PyInt, PyNone, PyNotImplemented, PyObjectPayload,
};
use num_bigint::BigInt;
use num_traits::{One, Zero};
use vstd::prelude::*;

verus! {

pub type PyIntRef = PyRef<PyInt>;

pub type PyNoneRef = PyRef<PyNone>;

pub type PyEllipsisRef = PyRef<PyEllipsis>;

pub type PyNotImplementedRef = PyRef<PyNotImplemented>;

/// The built-in types and values, and the heap that they and all other objects
/// live in.
#[derive(Debug)]
pub struct PyContext {
    pub heap: PyHeap,
    pub bytes_type: PyClassRef,
    pub bytearray_type: PyClassRef,
    pub bool_type: PyClassRef,
    pub classmethod_type: PyClassRef,
    pub code_type: PyClassRef,
    pub dict_type: PyClassRef,
    pub ellipsis_type: PyClassRef,
    pub enumerate_type: PyClassRef,
    pub filter_type: PyClassRef,
    pub float_type: PyClassRef,
    pub frame_type: PyClassRef,
    pub frozenset_type: PyClassRef,
    pub generator_type: PyClassRef,
    pub int_type: PyClassRef,
    pub iter_type: PyClassRef,
    pub complex_type: PyClassRef,
    pub true_value: PyIntRef,
    pub false_value: PyIntRef,
    pub list_type: PyClassRef,
    pub map_type: PyClassRef,
    pub memoryview_type: PyClassRef,
    pub none: PyNoneRef,
    pub ellipsis: PyEllipsisRef,
    pub not_implemented: PyNotImplementedRef,
    pub tuple_type: PyClassRef,
    pub set_type: PyClassRef,
    pub staticmethod_type: PyClassRef,
    pub super_type: PyClassRef,
    pub str_type: PyClassRef,
    pub range_type: PyClassRef,
    pub slice_type: PyClassRef,
    pub type_type: PyClassRef,
    pub zip_type: PyClassRef,
    pub function_type: PyClassRef,
    pub builtin_function_or_method_type: PyClassRef,
    pub property_type: PyClassRef,
    pub readonly_property_type: PyClassRef,
    pub module_type: PyClassRef,
    pub bound_method_type: PyClassRef,
    pub weakref_type: PyClassRef,
    pub object: PyClassRef,
    pub exceptions: ExceptionZoo,
}

/// The class `c` has the name `name` and inherits from `base`, and `meta` is
/// its type.
#[verifier::opaque]
pub open spec fn derived(
    h: HeapModel,
    c: PyClassRef,
    name: Seq<char>,
    meta: PyClassRef,
    base: PyClassRef,
) -> bool {
    &&& c.valid(h)
    &&& base.valid(h)
    &&& object_at(h, c@).typ == meta@
    &&& object_at(h, c@).dict is Some
    &&& object_at(h, c@).payload == PayloadModel::Class { name, mro: mro_below(h, base) }
}

/// A class keeps its name and its base.
pub broadcast proof fn lemma_derived_stays(
    h: HeapModel,
    after: HeapModel,
    c: PyClassRef,
    name: Seq<char>,
    meta: PyClassRef,
    base: PyClassRef,
)
    requires
        #[trigger] grows(h, after),
        #[trigger] derived(h, c, name, meta, base),
    ensures
        derived(after, c, name, meta, base),
{
    reveal(derived);
    assert(after[c@@ as int].payload == h[c@@ as int].payload);
    assert(after[base@@ as int].payload == h[base@@ as int].payload);
}

/// A class and its base are in the heap.
pub broadcast proof fn lemma_derived_valid(
    h: HeapModel,
    c: PyClassRef,
    name: Seq<char>,
    meta: PyClassRef,
    base: PyClassRef,
)
    requires
        #[trigger] derived(h, c, name, meta, base),
    ensures
        c.valid(h),
        base.valid(h),
        object_at(h, c@).typ == meta@,
        object_at(h, c@).dict is Some,
        object_at(h, c@).payload == (PayloadModel::Class { name, mro: mro_below(h, base) }),
{
    reveal(derived);
}

/// Makes a class.
pub fn create_type(
    name: &str,
    type_type: &PyClassRef,
    base: &PyClassRef,
    heap: &mut PyHeap,
) -> (r: PyClassRef)
    requires
        old(heap).wf(),
        in_heap(old(heap)@, type_type@),
        base.valid(old(heap)@),
    ensures
        final(heap).wf(),
        allocated(
            old(heap)@,
            final(heap)@,
            r@,
            plain_object(
                type_type@,
                PayloadModel::Class { name: name@, mro: mro_below(old(heap)@, *base) },
            ),
        ),
        grows(old(heap)@, final(heap)@),
        r.valid(final(heap)@),
        derived(final(heap)@, r, name@, *type_type, *base),
{
    reveal(derived);
    let dict = PyAttributes::new();
    objtype::new(type_type.clone().into_object(), name, base, dict, heap)
}

/// The object that `r` refers to has the type `typ` and carries `payload`.
pub open spec fn carries(
    h: HeapModel,
    r: PyObjectRef,
    typ: PyObjectRef,
    payload: PayloadModel,
) -> bool {
    &&& in_heap(h, r)
    &&& object_at(h, r).typ == typ
    &&& object_at(h, r).payload == payload
}

/// An object keeps its type and, unless it is a `dict` or an iterator, what it
/// carries.
pub broadcast proof fn lemma_carries_stays(
    h: HeapModel,
    after: HeapModel,
    r: PyObjectRef,
    typ: PyObjectRef,
    payload: PayloadModel,
)
    requires
        #[trigger] grows(h, after),
        #[trigger] carries(h, r, typ, payload),
        !(payload is Dict),
        !(payload is Iterator),
    ensures
        carries(after, r, typ, payload),
{
    assert(after[r@ as int].payload == h[r@ as int].payload);
}

/// The object that `r` refers to has a place for attributes.
pub open spec fn has_attributes(h: HeapModel, r: PyObjectRef) -> bool {
    in_heap(h, r) && object_at(h, r).dict is Some
}

/// An object keeps its place for attributes.
pub broadcast proof fn lemma_has_attributes_stays(h: HeapModel, after: HeapModel, r: PyObjectRef)
    requires
        #[trigger] grows(h, after),
        #[trigger] has_attributes(h, r),
    ensures
        has_attributes(after, r),
{
    assert(after[r@ as int].dict is Some == h[r@ as int].dict is Some);
}

/// An object of a class that has the name `name` and inherits from `base`.
pub open spec fn singleton(
    h: HeapModel,
    r: PyObjectRef,
    payload: PayloadModel,
    name: Seq<char>,
    meta: PyClassRef,
    base: PyClassRef,
) -> bool {
    &&& carries(h, r, object_at(h, r).typ, payload)
    &&& derived(h, typed(object_at(h, r).typ), name, meta, base)
}

impl PyContext {
    /// The built-in types and values are what their names say.
    pub open spec fn builtins_ok(&self, h: HeapModel) -> bool {
        let meta = self.type_type;
        let object = self.object;
        &&& carries(
            h,
            object@,
            meta@,
            PayloadModel::Class { name: "object"@, mro: Seq::<PyClassRef>::empty() },
        )
        &&& derived(h, meta, "type"@, meta, object)
        &&& derived(h, self.dict_type, "dict"@, meta, object)
        &&& derived(h, self.module_type, "module"@, meta, object)
        &&& derived(h, self.classmethod_type, "classmethod"@, meta, object)
        &&& derived(h, self.staticmethod_type, "staticmethod"@, meta, object)
        &&& derived(h, self.function_type, "function"@, meta, object)
        &&& derived(
            h,
            self.builtin_function_or_method_type,
            "builtin_function_or_method"@,
            meta,
            object,
        )
        &&& derived(h, self.property_type, "property"@, meta, object)
        &&& derived(h, self.readonly_property_type, "readonly_property"@, meta, object)
        &&& derived(h, self.super_type, "super"@, meta, object)
        &&& derived(h, self.weakref_type, "ref"@, meta, object)
        &&& derived(h, self.generator_type, "generator"@, meta, object)
        &&& derived(h, self.bound_method_type, "method"@, meta, object)
        &&& derived(h, self.str_type, "str"@, meta, object)
        &&& derived(h, self.list_type, "list"@, meta, object)
        &&& derived(h, self.set_type, "set"@, meta, object)
        &&& derived(h, self.frozenset_type, "frozenset"@, meta, object)
        &&& derived(h, self.int_type, "int"@, meta, object)
        &&& derived(h, self.float_type, "float"@, meta, object)
        &&& derived(h, self.frame_type, "frame"@, meta, object)
        &&& derived(h, self.complex_type, "complex"@, meta, object)
        &&& derived(h, self.bytes_type, "bytes"@, meta, object)
        &&& derived(h, self.bytearray_type, "bytearray"@, meta, object)
        &&& derived(h, self.tuple_type, "tuple"@, meta, object)
        &&& derived(h, self.iter_type, "iter"@, meta, object)
        &&& derived(h, self.enumerate_type, "enumerate"@, meta, object)
        &&& derived(h, self.filter_type, "filter"@, meta, object)
        &&& derived(h, self.map_type, "map"@, meta, object)
        &&& derived(h, self.zip_type, "zip"@, meta, object)
        &&& derived(h, self.bool_type, "bool"@, meta, self.int_type)
        &&& derived(h, self.memoryview_type, "memoryview"@, meta, object)
        &&& derived(h, self.code_type, "code"@, meta, self.int_type)
        &&& derived(h, self.range_type, "range"@, meta, object)
        &&& derived(h, self.slice_type, "slice"@, meta, object)
        &&& derived(h, self.ellipsis_type, "EllipsisType"@, meta, object)
        &&& singleton(h, self.none@, PayloadModel::NoneValue, "NoneType"@, meta, object)
        &&& carries(h, self.ellipsis@, self.ellipsis_type@, PayloadModel::Ellipsis)
        &&& singleton(
            h,
            self.not_implemented@,
            PayloadModel::NotImplemented,
            "NotImplementedType"@,
            meta,
            object,
        )
        &&& carries(h, self.true_value@, self.bool_type@, PayloadModel::Int { value: 1 })
        &&& carries(h, self.false_value@, self.bool_type@, PayloadModel::Int { value: 0 })
        &&& has_attributes(h, object@)
        &&& has_attributes(h, self.none@)
        &&& has_attributes(h, self.ellipsis@)
        &&& has_attributes(h, self.not_implemented@)
        &&& has_attributes(h, self.true_value@)
        &&& has_attributes(h, self.false_value@)
        &&& self.exceptions.wf(h, meta, object)
    }

    /// The heap is in order, and the built-in types and values are in it.
    pub open spec fn wf(&self) -> bool {
        self.heap.wf() && self.builtins_ok(self.heap@)
    }
}

/// The built-in types and values stay what they are.
pub proof fn lemma_builtins_stay(ctx: PyContext, h: HeapModel, after: HeapModel)
    requires
        ctx.builtins_ok(h),
        grows(h, after),
    ensures
        ctx.builtins_ok(after),
{
    broadcast use {lemma_derived_stays, lemma_carries_stays, lemma_has_attributes_stays};

}

/// Every object of the heap has a place for attributes.
#[verifier::opaque]
pub open spec fn all_have_attributes(h: HeapModel) -> bool {
    forall|i: int| 0 <= i < h.len() ==> (#[trigger] h[i]).dict is Some
}

/// Makes a built-in type.
fn create_builtin(
    name: &str,
    type_type: &PyClassRef,
    base: &PyClassRef,
    heap: &mut PyHeap,
) -> (r: PyClassRef)
    requires
        old(heap).wf(),
        type_type.valid(old(heap)@),
        base.valid(old(heap)@),
        all_have_attributes(old(heap)@),
    ensures
        final(heap).wf(),
        all_have_attributes(final(heap)@),
        forall|root: PyObjectRef| #[trigger]
            hierarchy(old(heap)@, root) ==> hierarchy(final(heap)@, root),
        grows(old(heap)@, final(heap)@),
        type_type.valid(final(heap)@),
        base.valid(final(heap)@),
        r.valid(final(heap)@),
        derived(final(heap)@, r, name@, *type_type, *base),
{
    reveal(all_have_attributes);
    let r = create_type(name, type_type, base, heap);
    proof {
        assert forall|root: PyObjectRef| #[trigger] hierarchy(old(heap)@, root) implies hierarchy(
            heap@,
            root,
        ) by {
            lemma_hierarchy_class(old(heap)@, object_at(heap@, r@), *base, root);
        }
    }
    r
}

/// Makes an object of the class `cls`.
fn create_object<T: PyObjectPayload>(payload: T, cls: &PyClassRef, heap: &mut PyHeap) -> (r: PyRef<
    T,
>)
    requires
        old(heap).wf(),
        cls.valid(old(heap)@),
        payload_fits(old(heap)@, old(heap)@.len(), payload.as_payload()@),
        !(payload.as_payload()@ is Class),
    ensures
        final(heap).wf(),
        allocated(
            old(heap)@,
            final(heap)@,
            r@,
            plain_object(cls@, payload.as_payload()@),
        ),
        carries(final(heap)@, r@, cls@, payload.as_payload()@),
        grows(old(heap)@, final(heap)@),
        all_have_attributes(old(heap)@) ==> all_have_attributes(final(heap)@),
        forall|root: PyObjectRef| #[trigger]
            hierarchy(old(heap)@, root) ==> hierarchy(final(heap)@, root),
{
    reveal(all_have_attributes);
    let r = PyObject::new(payload, cls.clone().into_object(), heap);
    proof {
        assert forall|root: PyObjectRef| #[trigger] hierarchy(old(heap)@, root) implies hierarchy(
            heap@,
            root,
        ) by {
            lemma_hierarchy_grows(old(heap)@, heap@, root);
        }
    }
    PyRef::from_object(r)
}

impl PyContext {
    /// Makes the built-in types and values. Which attributes they have is up to
    /// the modules that implement the types.
    pub fn new() -> (r: Self)
        ensures
            r.wf(),
            hierarchy(r.heap@, r.object@),
            all_have_attributes(r.heap@),
    {
        broadcast use {lemma_derived_stays, lemma_carries_stays, lemma_same_ref, lemma_typed};

        let (mut heap, type_type, object_type) = init_type_hierarchy();
        assert(derived(heap@, type_type, "type"@, type_type, object_type)) by {
            reveal(derived);
            assert(mro_below(heap@, object_type) =~= seq![object_type]);
        }
        assert(carries(
            heap@,
            object_type@,
            type_type@,
            PayloadModel::Class { name: "object"@, mro: Seq::<PyClassRef>::empty() },
        ));
        assert(all_have_attributes(heap@)) by {
            reveal(all_have_attributes);
        }
        assert(hierarchy(heap@, object_type@)) by {
            reveal(hierarchy);
            assert forall|c: PyObjectRef| #[trigger] is_class(heap@, c) implies c == object_type@
                || c == type_type@ by {
                lemma_same_place(c, object_type@);
                lemma_same_place(c, type_type@);
            }
            assert(class_mro(heap@, type_type@)[0] == object_type);
            assert(class_mro(heap@, object_type@).len() == 0);
        }
        let dict_type = create_builtin("dict", &type_type, &object_type, &mut heap);
        let module_type = create_builtin("module", &type_type, &object_type, &mut heap);
        let classmethod_type = create_builtin("classmethod", &type_type, &object_type, &mut heap);
        let staticmethod_type = create_builtin("staticmethod", &type_type, &object_type, &mut heap);
        let function_type = create_builtin("function", &type_type, &object_type, &mut heap);
        let builtin_function_or_method_type = create_builtin(
            "builtin_function_or_method",
            &type_type,
            &object_type,
            &mut heap,
        );
        let property_type = create_builtin("property", &type_type, &object_type, &mut heap);
        let readonly_property_type = create_builtin(
            "readonly_property",
            &type_type,
            &object_type,
            &mut heap,
        );
        let super_type = create_builtin("super", &type_type, &object_type, &mut heap);
        let weakref_type = create_builtin("ref", &type_type, &object_type, &mut heap);
        let generator_type = create_builtin("generator", &type_type, &object_type, &mut heap);
        let bound_method_type = create_builtin("method", &type_type, &object_type, &mut heap);
        let str_type = create_builtin("str", &type_type, &object_type, &mut heap);
        let list_type = create_builtin("list", &type_type, &object_type, &mut heap);
        let set_type = create_builtin("set", &type_type, &object_type, &mut heap);
        let frozenset_type = create_builtin("frozenset", &type_type, &object_type, &mut heap);
        let int_type = create_builtin("int", &type_type, &object_type, &mut heap);
        let float_type = create_builtin("float", &type_type, &object_type, &mut heap);
        let frame_type = create_builtin("frame", &type_type, &object_type, &mut heap);
        let complex_type = create_builtin("complex", &type_type, &object_type, &mut heap);
        let bytes_type = create_builtin("bytes", &type_type, &object_type, &mut heap);
        let bytearray_type = create_builtin("bytearray", &type_type, &object_type, &mut heap);
        let tuple_type = create_builtin("tuple", &type_type, &object_type, &mut heap);
        let iter_type = create_builtin("iter", &type_type, &object_type, &mut heap);
        let enumerate_type = create_builtin("enumerate", &type_type, &object_type, &mut heap);
        let filter_type = create_builtin("filter", &type_type, &object_type, &mut heap);
        let map_type = create_builtin("map", &type_type, &object_type, &mut heap);
        let zip_type = create_builtin("zip", &type_type, &object_type, &mut heap);
        let bool_type = create_builtin("bool", &type_type, &int_type, &mut heap);
        let memoryview_type = create_builtin("memoryview", &type_type, &object_type, &mut heap);
        let code_type = create_builtin("code", &type_type, &int_type, &mut heap);
        let range_type = create_builtin("range", &type_type, &object_type, &mut heap);
        let slice_type = create_builtin("slice", &type_type, &object_type, &mut heap);
        let exceptions = ExceptionZoo::new(&type_type, &object_type, &mut heap);

        let none_type = create_builtin("NoneType", &type_type, &object_type, &mut heap);
        let none = create_object(PyNone, &none_type, &mut heap);

        let ellipsis_type = create_builtin("EllipsisType", &type_type, &object_type, &mut heap);
        let ellipsis = create_object(PyEllipsis, &ellipsis_type, &mut heap);

        let not_implemented_type = create_builtin(
            "NotImplementedType",
            &type_type,
            &object_type,
            &mut heap,
        );
        let not_implemented = create_object(PyNotImplemented, &not_implemented_type, &mut heap);

        let true_value = create_object(PyInt::new(<BigInt as One>::one()), &bool_type, &mut heap);
        let false_value = create_object(
            PyInt::new(<BigInt as Zero>::zero()),
            &bool_type,
            &mut heap,
        );
        assert forall|r: PyObjectRef| in_heap(heap@, r) implies #[trigger] has_attributes(
            heap@,
            r,
        ) by {
            reveal(all_have_attributes);
        }
        PyContext {
            heap,
            bytes_type,
            bytearray_type,
            bool_type,
            classmethod_type,
            code_type,
            dict_type,
            ellipsis_type,
            enumerate_type,
            filter_type,
            float_type,
            frame_type,
            frozenset_type,
            generator_type,
            int_type,
            iter_type,
            complex_type,
            true_value,
            false_value,
            list_type,
            map_type,
            memoryview_type,
            none,
            ellipsis,
            not_implemented,
            tuple_type,
            set_type,
            staticmethod_type,
            super_type,
            str_type,
            range_type,
            slice_type,
            type_type,
            zip_type,
            function_type,
            builtin_function_or_method_type,
            property_type,
            readonly_property_type,
            module_type,
            bound_method_type,
            weakref_type,
            object: object_type,
            exceptions,
        }
    }
}

/// Nothing but the heap has changed.
pub open spec fn keeps_builtins(before: PyContext, after: PyContext) -> bool {
    after == (PyContext { heap: after.heap, ..before })
}

impl PyContext {
    pub fn bytearray_type(&self) -> (r: PyClassRef)
        ensures
            r == self.bytearray_type,
    {
        self.bytearray_type.clone()
    }

    pub fn bytes_type(&self) -> (r: PyClassRef)
        ensures
            r == self.bytes_type,
    {
        self.bytes_type.clone()
    }

    pub fn code_type(&self) -> (r: PyClassRef)
        ensures
            r == self.code_type,
    {
        self.code_type.clone()
    }

    pub fn complex_type(&self) -> (r: PyClassRef)
        ensures
            r == self.complex_type,
    {
        self.complex_type.clone()
    }

    pub fn dict_type(&self) -> (r: PyClassRef)
        ensures
            r == self.dict_type,
    {
        self.dict_type.clone()
    }

    pub fn float_type(&self) -> (r: PyClassRef)
        ensures
            r == self.float_type,
    {
        self.float_type.clone()
    }

    pub fn frame_type(&self) -> (r: PyClassRef)
        ensures
            r == self.frame_type,
    {
        self.frame_type.clone()
    }

    pub fn int_type(&self) -> (r: PyClassRef)
        ensures
            r == self.int_type,
    {
        self.int_type.clone()
    }

    pub fn list_type(&self) -> (r: PyClassRef)
        ensures
            r == self.list_type,
    {
        self.list_type.clone()
    }

    pub fn module_type(&self) -> (r: PyClassRef)
        ensures
            r == self.module_type,
    {
        self.module_type.clone()
    }

    pub fn set_type(&self) -> (r: PyClassRef)
        ensures
            r == self.set_type,
    {
        self.set_type.clone()
    }

    pub fn range_type(&self) -> (r: PyClassRef)
        ensures
            r == self.range_type,
    {
        self.range_type.clone()
    }

    pub fn slice_type(&self) -> (r: PyClassRef)
        ensures
            r == self.slice_type,
    {
        self.slice_type.clone()
    }

    pub fn frozenset_type(&self) -> (r: PyClassRef)
        ensures
            r == self.frozenset_type,
    {
        self.frozenset_type.clone()
    }

    pub fn bool_type(&self) -> (r: PyClassRef)
        ensures
            r == self.bool_type,
    {
        self.bool_type.clone()
    }

    pub fn memoryview_type(&self) -> (r: PyClassRef)
        ensures
            r == self.memoryview_type,
    {
        self.memoryview_type.clone()
    }

    pub fn tuple_type(&self) -> (r: PyClassRef)
        ensures
            r == self.tuple_type,
    {
        self.tuple_type.clone()
    }

    pub fn iter_type(&self) -> (r: PyClassRef)
        ensures
            r == self.iter_type,
    {
        self.iter_type.clone()
    }

    pub fn enumerate_type(&self) -> (r: PyClassRef)
        ensures
            r == self.enumerate_type,
    {
        self.enumerate_type.clone()
    }

    pub fn filter_type(&self) -> (r: PyClassRef)
        ensures
            r == self.filter_type,
    {
        self.filter_type.clone()
    }

    pub fn map_type(&self) -> (r: PyClassRef)
        ensures
            r == self.map_type,
    {
        self.map_type.clone()
    }

    pub fn zip_type(&self) -> (r: PyClassRef)
        ensures
            r == self.zip_type,
    {
        self.zip_type.clone()
    }

    pub fn str_type(&self) -> (r: PyClassRef)
        ensures
            r == self.str_type,
    {
        self.str_type.clone()
    }

    pub fn super_type(&self) -> (r: PyClassRef)
        ensures
            r == self.super_type,
    {
        self.super_type.clone()
    }

    pub fn function_type(&self) -> (r: PyClassRef)
        ensures
            r == self.function_type,
    {
        self.function_type.clone()
    }

    pub fn builtin_function_or_method_type(&self) -> (r: PyClassRef)
        ensures
            r == self.builtin_function_or_method_type,
    {
        self.builtin_function_or_method_type.clone()
    }

    pub fn property_type(&self) -> (r: PyClassRef)
        ensures
            r == self.property_type,
    {
        self.property_type.clone()
    }

    pub fn readonly_property_type(&self) -> (r: PyClassRef)
        ensures
            r == self.readonly_property_type,
    {
        self.readonly_property_type.clone()
    }

    pub fn classmethod_type(&self) -> (r: PyClassRef)
        ensures
            r == self.classmethod_type,
    {
        self.classmethod_type.clone()
    }

    pub fn staticmethod_type(&self) -> (r: PyClassRef)
        ensures
            r == self.staticmethod_type,
    {
        self.staticmethod_type.clone()
    }

    pub fn generator_type(&self) -> (r: PyClassRef)
        ensures
            r == self.generator_type,
    {
        self.generator_type.clone()
    }

    pub fn bound_method_type(&self) -> (r: PyClassRef)
        ensures
            r == self.bound_method_type,
    {
        self.bound_method_type.clone()
    }

    pub fn weakref_type(&self) -> (r: PyClassRef)
        ensures
            r == self.weakref_type,
    {
        self.weakref_type.clone()
    }

    pub fn type_type(&self) -> (r: PyClassRef)
        ensures
            r == self.type_type,
    {
        self.type_type.clone()
    }

    pub fn object(&self) -> (r: PyClassRef)
        ensures
            r == self.object,
    {
        self.object.clone()
    }

    pub fn none(&self) -> (r: PyObjectRef)
        ensures
            r == self.none@,
    {
        self.none.clone().into_object()
    }

    pub fn ellipsis(&self) -> (r: PyObjectRef)
        ensures
            r == self.ellipsis@,
    {
        self.ellipsis.clone().into_object()
    }

    pub fn not_implemented(&self) -> (r: PyObjectRef)
        ensures
            r == self.not_implemented@,
    {
        self.not_implemented.clone().into_object()
    }
}

impl Default for PyContext {
    fn default() -> (r: PyContext)
        ensures
            r.wf(),
            hierarchy(r.heap@, r.object@),
            all_have_attributes(r.heap@),
    {
        PyContext::new()
    }
}

} // verus!
