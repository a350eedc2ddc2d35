//! The constructors of objects.
use crate::bytecode::CodeObject;
use crate::context::{keeps_builtins, lemma_builtins_stay, lemma_derived_valid, PyContext};
use crate::frame::{Frame, Scope};
use crate::numbers::bigint_value;
use crate::object::{
    all_in_heap, allocated, attributes_fit, grows, in_heap, payload_fits, plain_object, HeapModel,
    ObjectModel, PyClassRef, PyObject, PyObjectRef,
};
use crate::objtype;
use crate::objtype::mro_below;
use crate::payload::{
    PayloadModel, PyAttributes, PyBuiltinFunction, PyByteArray, PyBytes, PyCode, PyComplex, PyDict,
    PyFloat, PyFunction, PyInstance, PyInt, PyList, PyMethod, PyModule, PyNativeFunc,
    PyObjectPayload, PyReadOnlyProperty, PySet, PyString, PyTuple,
};
use crate::strmap::StrMap;
use num_bigint::BigInt;
use num_complex::Complex64;
use vstd::prelude::*;

verus! {

/// The scope refers to objects of the heap.
pub open spec fn scope_fits(h: HeapModel, scope: Scope) -> bool {
    all_in_heap(h, scope.locals@) && in_heap(h, scope.globals)
}

impl PyContext {
    /// Makes an object that carries `payload`.
    fn new_payload<T: PyObjectPayload>(&mut self, payload: T, typ: PyClassRef) -> (r: PyObjectRef)
        requires
            old(self).wf(),
            in_heap(old(self).heap@, typ@),
            payload_fits(old(self).heap@, old(self).heap@.len(), payload.as_payload()@),
        ensures
            final(self).wf(),
            keeps_builtins(*old(self), *final(self)),
            allocated(
                old(self).heap@,
                final(self).heap@,
                r,
                plain_object(typ@, payload.as_payload()@),
            ),
            grows(old(self).heap@, final(self).heap@),
    {
        let r = PyObject::new(payload, typ.into_object(), &mut self.heap);
        proof {
            lemma_builtins_stay(*self, old(self).heap@, self.heap@);
        }
        r
    }

    pub fn new_object(&mut self) -> (r: PyObjectRef)
        requires
            old(self).wf(),
        ensures
            final(self).wf(),
            keeps_builtins(*old(self), *final(self)),
            allocated(
                old(self).heap@,
                final(self).heap@,
                r,
                plain_object(old(self).object@, PayloadModel::Instance),
            ),
            grows(old(self).heap@, final(self).heap@),
    {
        self.new_instance(self.object.clone(), None)
    }

    pub fn new_int<T: Into<BigInt>>(&mut self, i: T) -> (r: PyObjectRef)
        requires
            old(self).wf(),
        ensures
            final(self).wf(),
            keeps_builtins(*old(self), *final(self)),
            exists|value: BigInt| #[trigger]
                call_ensures(<T as Into<BigInt>>::into, (i,), value) && allocated(
                    old(self).heap@,
                    final(self).heap@,
                    r,
                    plain_object(
                        old(self).int_type@,
                        PayloadModel::Int { value: bigint_value(value) },
                    ),
                ),
            grows(old(self).heap@, final(self).heap@),
    {
        broadcast use lemma_derived_valid;

        self.new_payload(PyInt::new(i), self.int_type())
    }

    /// Makes a `float` object of the number whose binary64 form has the bits `bits`.
    pub fn new_float(&mut self, bits: u64) -> (r: PyObjectRef)
        requires
            old(self).wf(),
        ensures
            final(self).wf(),
            keeps_builtins(*old(self), *final(self)),
            allocated(
                old(self).heap@,
                final(self).heap@,
                r,
                plain_object(old(self).float_type@, PayloadModel::Float { bits }),
            ),
            grows(old(self).heap@, final(self).heap@),
    {
        broadcast use lemma_derived_valid;

        self.new_payload(PyFloat { bits }, self.float_type())
    }

    pub fn new_complex(&mut self, value: Complex64) -> (r: PyObjectRef)
        requires
            old(self).wf(),
        ensures
            final(self).wf(),
            keeps_builtins(*old(self), *final(self)),
            allocated(
                old(self).heap@,
                final(self).heap@,
                r,
                plain_object(old(self).complex_type@, PayloadModel::Complex { value }),
            ),
            grows(old(self).heap@, final(self).heap@),
    {
        broadcast use lemma_derived_valid;

        self.new_payload(PyComplex { value }, self.complex_type())
    }

    pub fn new_str(&mut self, s: String) -> (r: PyObjectRef)
        requires
            old(self).wf(),
        ensures
            final(self).wf(),
            keeps_builtins(*old(self), *final(self)),
            allocated(
                old(self).heap@,
                final(self).heap@,
                r,
                plain_object(old(self).str_type@, PayloadModel::Str { value: s@ }),
            ),
            grows(old(self).heap@, final(self).heap@),
    {
        broadcast use lemma_derived_valid;

        self.new_payload(PyString { value: s }, self.str_type())
    }

    pub fn new_bytes(&mut self, data: Vec<u8>) -> (r: PyObjectRef)
        requires
            old(self).wf(),
        ensures
            final(self).wf(),
            keeps_builtins(*old(self), *final(self)),
            allocated(
                old(self).heap@,
                final(self).heap@,
                r,
                plain_object(old(self).bytes_type@, PayloadModel::Bytes { value: data@ }),
            ),
            grows(old(self).heap@, final(self).heap@),
    {
        broadcast use lemma_derived_valid;

        self.new_payload(PyBytes { value: data }, self.bytes_type())
    }

    pub fn new_bytearray(&mut self, data: Vec<u8>) -> (r: PyObjectRef)
        requires
            old(self).wf(),
        ensures
            final(self).wf(),
            keeps_builtins(*old(self), *final(self)),
            allocated(
                old(self).heap@,
                final(self).heap@,
                r,
                plain_object(old(self).bytearray_type@, PayloadModel::ByteArray { value: data@ }),
            ),
            grows(old(self).heap@, final(self).heap@),
    {
        broadcast use lemma_derived_valid;

        self.new_payload(PyByteArray { value: data }, self.bytearray_type())
    }

    pub fn new_bool(&self, b: bool) -> (r: PyObjectRef)
        ensures
            r == (if b {
                self.true_value@
            } else {
                self.false_value@
            }),
    {
        if b {
            self.true_value.clone().into_object()
        } else {
            self.false_value.clone().into_object()
        }
    }

    pub fn new_tuple(&mut self, elements: Vec<PyObjectRef>) -> (r: PyObjectRef)
        requires
            old(self).wf(),
            all_in_heap(old(self).heap@, elements@),
        ensures
            final(self).wf(),
            keeps_builtins(*old(self), *final(self)),
            allocated(
                old(self).heap@,
                final(self).heap@,
                r,
                plain_object(old(self).tuple_type@, PayloadModel::Tuple { elements: elements@ }),
            ),
            grows(old(self).heap@, final(self).heap@),
    {
        broadcast use lemma_derived_valid;

        self.new_payload(PyTuple { elements }, self.tuple_type())
    }

    pub fn new_list(&mut self, elements: Vec<PyObjectRef>) -> (r: PyObjectRef)
        requires
            old(self).wf(),
            all_in_heap(old(self).heap@, elements@),
        ensures
            final(self).wf(),
            keeps_builtins(*old(self), *final(self)),
            allocated(
                old(self).heap@,
                final(self).heap@,
                r,
                plain_object(old(self).list_type@, PayloadModel::List { elements: elements@ }),
            ),
            grows(old(self).heap@, final(self).heap@),
    {
        broadcast use lemma_derived_valid;

        self.new_payload(PyList { elements }, self.list_type())
    }

    /// Initialized empty, as calling `__hash__` is required for adding each object
    /// to the set.
    pub fn new_set(&mut self) -> (r: PyObjectRef)
        requires
            old(self).wf(),
        ensures
            final(self).wf(),
            keeps_builtins(*old(self), *final(self)),
            allocated(
                old(self).heap@,
                final(self).heap@,
                r,
                plain_object(
                    old(self).set_type@,
                    PayloadModel::SetValue { elements: Seq::empty() },
                ),
            ),
            grows(old(self).heap@, final(self).heap@),
    {
        broadcast use lemma_derived_valid;

        self.new_payload(PySet { elements: Vec::new() }, self.set_type())
    }

    pub fn new_dict(&mut self) -> (r: PyObjectRef)
        requires
            old(self).wf(),
        ensures
            final(self).wf(),
            keeps_builtins(*old(self), *final(self)),
            allocated(
                old(self).heap@,
                final(self).heap@,
                r,
                plain_object(old(self).dict_type@, PayloadModel::Dict { entries: Map::empty() }),
            ),
            grows(old(self).heap@, final(self).heap@),
    {
        broadcast use lemma_derived_valid;

        self.new_payload(PyDict { entries: StrMap::new() }, self.dict_type())
    }

    pub fn new_class(&mut self, name: &str, base: PyClassRef) -> (r: PyClassRef)
        requires
            old(self).wf(),
            base.valid(old(self).heap@),
        ensures
            final(self).wf(),
            keeps_builtins(*old(self), *final(self)),
            allocated(
                old(self).heap@,
                final(self).heap@,
                r@,
                plain_object(
                    old(self).type_type@,
                    PayloadModel::Class { name: name@, mro: mro_below(old(self).heap@, base) },
                ),
            ),
            grows(old(self).heap@, final(self).heap@),
            r.valid(final(self).heap@),
    {
        broadcast use lemma_derived_valid;

        let r = objtype::new(
            self.type_type().into_object(),
            name,
            &base,
            PyAttributes::new(),
            &mut self.heap,
        );
        proof {
            lemma_builtins_stay(*self, old(self).heap@, self.heap@);
        }
        r
    }

    /// Makes a scope without local variables and with a new `dict` object for
    /// the global ones.
    pub fn new_scope(&mut self) -> (r: Scope)
        requires
            old(self).wf(),
        ensures
            final(self).wf(),
            keeps_builtins(*old(self), *final(self)),
            r.locals@ == Seq::<PyObjectRef>::empty(),
            allocated(
                old(self).heap@,
                final(self).heap@,
                r.globals,
                plain_object(old(self).dict_type@, PayloadModel::Dict { entries: Map::empty() }),
            ),
            grows(old(self).heap@, final(self).heap@),
    {
        Scope::new(None, self.new_dict())
    }

    pub fn new_module(&mut self, name: &str, dict: PyObjectRef) -> (r: PyObjectRef)
        requires
            old(self).wf(),
            in_heap(old(self).heap@, dict),
        ensures
            final(self).wf(),
            keeps_builtins(*old(self), *final(self)),
            allocated(
                old(self).heap@,
                final(self).heap@,
                r,
                plain_object(old(self).module_type@, PayloadModel::Module { name: name@, dict }),
            ),
            grows(old(self).heap@, final(self).heap@),
    {
        broadcast use lemma_derived_valid;

        self.new_payload(PyModule { name: name.to_owned(), dict }, self.module_type())
    }

    pub fn new_rustfunc(&mut self, f: PyNativeFunc) -> (r: PyObjectRef)
        requires
            old(self).wf(),
        ensures
            final(self).wf(),
            keeps_builtins(*old(self), *final(self)),
            allocated(
                old(self).heap@,
                final(self).heap@,
                r,
                plain_object(
                    old(self).builtin_function_or_method_type@,
                    PayloadModel::BuiltinFunction { value: f },
                ),
            ),
            grows(old(self).heap@, final(self).heap@),
    {
        broadcast use lemma_derived_valid;

        self.new_payload(PyBuiltinFunction { value: f }, self.builtin_function_or_method_type())
    }

    pub fn new_frame(&mut self, code: PyObjectRef, scope: Scope) -> (r: PyObjectRef)
        requires
            old(self).wf(),
            in_heap(old(self).heap@, code),
            scope_fits(old(self).heap@, scope),
        ensures
            final(self).wf(),
            keeps_builtins(*old(self), *final(self)),
            allocated(
                old(self).heap@,
                final(self).heap@,
                r,
                plain_object(
                    old(self).frame_type@,
                    PayloadModel::Frame { code, locals: scope.locals@, globals: scope.globals },
                ),
            ),
            grows(old(self).heap@, final(self).heap@),
    {
        broadcast use lemma_derived_valid;

        self.new_payload(Frame { code, scope }, self.frame_type())
    }

    /// Makes a property that can be read by calling `f`, which becomes an
    /// object of its own.
    pub fn new_property(&mut self, f: PyNativeFunc) -> (r: PyObjectRef)
        requires
            old(self).wf(),
        ensures
            final(self).wf(),
            keeps_builtins(*old(self), *final(self)),
            exists|getter: PyObjectRef|
                getter@ == old(self).heap@.len() && #[trigger] allocated(
                    old(self).heap@.push(
                        plain_object(
                            old(self).builtin_function_or_method_type@,
                            PayloadModel::BuiltinFunction { value: f },
                        ),
                    ),
                    final(self).heap@,
                    r,
                    plain_object(
                        old(self).readonly_property_type@,
                        PayloadModel::ReadOnlyProperty { getter },
                    ),
                ),
            grows(old(self).heap@, final(self).heap@),
    {
        broadcast use lemma_derived_valid;

        let getter = self.new_rustfunc(f);
        self.new_payload(PyReadOnlyProperty { getter }, self.readonly_property_type())
    }

    pub fn new_code_object(&mut self, code: CodeObject) -> (r: PyObjectRef)
        requires
            old(self).wf(),
        ensures
            final(self).wf(),
            keeps_builtins(*old(self), *final(self)),
            allocated(
                old(self).heap@,
                final(self).heap@,
                r,
                plain_object(old(self).code_type@, PayloadModel::Code { code: code@ }),
            ),
            grows(old(self).heap@, final(self).heap@),
    {
        broadcast use lemma_derived_valid;

        self.new_payload(PyCode { code }, self.code_type())
    }

    pub fn new_function(
        &mut self,
        code_obj: PyObjectRef,
        scope: Scope,
        defaults: PyObjectRef,
    ) -> (r: PyObjectRef)
        requires
            old(self).wf(),
            in_heap(old(self).heap@, code_obj),
            scope_fits(old(self).heap@, scope),
            in_heap(old(self).heap@, defaults),
        ensures
            final(self).wf(),
            keeps_builtins(*old(self), *final(self)),
            allocated(
                old(self).heap@,
                final(self).heap@,
                r,
                plain_object(old(self).function_type@, PayloadModel::Function {
                        code: code_obj,
                        locals: scope.locals@,
                        globals: scope.globals,
                        defaults,
                    }),
            ),
            grows(old(self).heap@, final(self).heap@),
    {
        broadcast use lemma_derived_valid;

        self.new_payload(PyFunction { code: code_obj, scope, defaults }, self.function_type())
    }

    pub fn new_bound_method(&mut self, function: PyObjectRef, object: PyObjectRef) -> (r:
        PyObjectRef)
        requires
            old(self).wf(),
            in_heap(old(self).heap@, function),
            in_heap(old(self).heap@, object),
        ensures
            final(self).wf(),
            keeps_builtins(*old(self), *final(self)),
            allocated(
                old(self).heap@,
                final(self).heap@,
                r,
                plain_object(
                    old(self).bound_method_type@,
                    PayloadModel::Method { object, function },
                ),
            ),
            grows(old(self).heap@, final(self).heap@),
    {
        broadcast use lemma_derived_valid;

        self.new_payload(PyMethod { object, function }, self.bound_method_type())
    }

    pub fn new_instance(&mut self, class: PyClassRef, dict: Option<PyAttributes>) -> (r:
        PyObjectRef)
        requires
            old(self).wf(),
            in_heap(old(self).heap@, class@),
            dict matches Some(d) ==> attributes_fit(old(self).heap@, d@),
        ensures
            final(self).wf(),
            keeps_builtins(*old(self), *final(self)),
            allocated(
                old(self).heap@,
                final(self).heap@,
                r,
                (ObjectModel {
                    typ: class@,
                    dict: Some(
                        match dict {
                            Some(d) => d@,
                            None => Map::empty(),
                        },
                    ),
                    payload: PayloadModel::Instance,
                }),
            ),
            grows(old(self).heap@, final(self).heap@),
    {
        let dict = match dict {
            Some(d) => d,
            None => PyAttributes::new(),
        };
        let o = PyObject { typ: class.into_object(), dict: Some(dict), payload: PyInstance };
        let r = o.into_ref(&mut self.heap);
        proof {
            lemma_builtins_stay(*self, old(self).heap@, self.heap@);
        }
        r
    }
}

} // verus!
