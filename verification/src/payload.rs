//! What the objects carry.
use crate::bytecode::{CodeModel, CodeObject};
use crate::frame::{Frame, Scope};
use crate::numbers::bigint_value;
use crate::object::{is_class, payload_fits, PyClassRef, PyHeap, PyObjectRef};
use crate::strmap::StrMap;
use num_bigint::BigInt;
use num_complex::Complex64;
use vstd::prelude::*;

verus! {

/// The attributes of an object. This is not a `dict` object: it only supports
/// strings as keys.
pub type PyAttributes = StrMap<PyObjectRef>;

/// The contents of a `dict` object: under each string, the `str` object that
/// is the key and the value.
pub type DictContent = StrMap<(PyObjectRef, PyObjectRef)>;

/// A class. `mro` lists the classes it inherits from, nearest first, without
/// the class itself.
#[derive(Debug)]
pub struct PyClass {
    pub name: String,
    pub mro: Vec<PyClassRef>,
}

/// A module, whose variables are in `dict`.
#[derive(Debug)]
pub struct PyModule {
    pub name: String,
    pub dict: PyObjectRef,
}

/// An instance of a class that carries nothing besides its attributes.
#[derive(Debug)]
pub struct PyInstance;

#[derive(Debug)]
pub struct PyNone;

#[derive(Debug)]
pub struct PyEllipsis;

#[derive(Debug)]
pub struct PyNotImplemented;

#[derive(Debug)]
pub struct PyInt {
    pub value: BigInt,
}

impl PyInt {
    pub fn new<T: Into<BigInt>>(i: T) -> (r: PyInt)
        ensures
            call_ensures(<T as Into<BigInt>>::into, (i,), r.value),
    {
        PyInt { value: i.into() }
    }
}

/// A floating point number, by the bits of its IEEE 754 binary64 form.
#[derive(Debug)]
pub struct PyFloat {
    pub bits: u64,
}

#[derive(Debug)]
pub struct PyComplex {
    pub value: Complex64,
}

#[derive(Debug)]
pub struct PyString {
    pub value: String,
}

#[derive(Debug)]
pub struct PyBytes {
    pub value: Vec<u8>,
}

#[derive(Debug)]
pub struct PyByteArray {
    pub value: Vec<u8>,
}

#[derive(Debug)]
pub struct PyTuple {
    pub elements: Vec<PyObjectRef>,
}

#[derive(Debug)]
pub struct PyList {
    pub elements: Vec<PyObjectRef>,
}

#[derive(Debug)]
pub struct PySet {
    pub elements: Vec<PyObjectRef>,
}

#[derive(Debug)]
pub struct PyDict {
    pub entries: DictContent,
}

/// A function that is implemented in Rust, by its place in the table of such
/// functions that the virtual machine keeps.
#[derive(Debug, Clone, Copy, PartialEq, Eq, Structural)]
pub struct PyNativeFunc {
    pub index: usize,
}

#[derive(Debug)]
pub struct PyBuiltinFunction {
    pub value: PyNativeFunc,
}

/// A property that can only be read.
#[derive(Debug)]
pub struct PyReadOnlyProperty {
    pub getter: PyObjectRef,
}

#[derive(Debug)]
pub struct PyCode {
    pub code: CodeObject,
}

/// A function that is implemented in Python.
#[derive(Debug)]
pub struct PyFunction {
    pub code: PyObjectRef,
    pub scope: Scope,
    pub defaults: PyObjectRef,
}

/// A function together with the object that it is a method of.
#[derive(Debug)]
pub struct PyMethod {
    pub object: PyObjectRef,
    pub function: PyObjectRef,
}

/// An iterator over `iterated_obj` that stands at `position`.
#[derive(Debug)]
pub struct PyIteratorValue {
    pub position: usize,
    pub iterated_obj: PyObjectRef,
}

/// The payload of an object, whatever its type.
#[derive(Debug)]
pub enum Payload {
    Class(PyClass),
    Module(PyModule),
    Instance(PyInstance),
    NoneValue(PyNone),
    Ellipsis(PyEllipsis),
    NotImplemented(PyNotImplemented),
    Int(PyInt),
    Float(PyFloat),
    Complex(PyComplex),
    Str(PyString),
    Bytes(PyBytes),
    ByteArray(PyByteArray),
    Tuple(PyTuple),
    List(PyList),
    SetValue(PySet),
    Dict(PyDict),
    BuiltinFunction(PyBuiltinFunction),
    ReadOnlyProperty(PyReadOnlyProperty),
    Frame(Frame),
    Code(PyCode),
    Function(PyFunction),
    Method(PyMethod),
    Iterator(PyIteratorValue),
}

/// The mathematical value of a payload.
#[allow(inconsistent_fields)]
pub enum PayloadModel {
    Class { name: Seq<char>, mro: Seq<PyClassRef> },
    Module { name: Seq<char>, dict: PyObjectRef },
    Instance,
    NoneValue,
    Ellipsis,
    NotImplemented,
    Int { value: int },
    Float { bits: u64 },
    Complex { value: Complex64 },
    Str { value: Seq<char> },
    Bytes { value: Seq<u8> },
    ByteArray { value: Seq<u8> },
    Tuple { elements: Seq<PyObjectRef> },
    List { elements: Seq<PyObjectRef> },
    SetValue { elements: Seq<PyObjectRef> },
    Dict { entries: Map<Seq<char>, (PyObjectRef, PyObjectRef)> },
    BuiltinFunction { value: PyNativeFunc },
    ReadOnlyProperty { getter: PyObjectRef },
    Frame { code: PyObjectRef, locals: Seq<PyObjectRef>, globals: PyObjectRef },
    Code { code: CodeModel },
    Function {
        code: PyObjectRef,
        locals: Seq<PyObjectRef>,
        globals: PyObjectRef,
        defaults: PyObjectRef,
    },
    Method { object: PyObjectRef, function: PyObjectRef },
    Iterator { position: nat, iterated_obj: PyObjectRef },
}

impl Payload {
    pub open spec fn view(&self) -> PayloadModel {
        match self {
            Payload::Class(p) => PayloadModel::Class { name: p.name@, mro: p.mro@ },
            Payload::Module(p) => PayloadModel::Module { name: p.name@, dict: p.dict },
            Payload::Instance(p) => PayloadModel::Instance,
            Payload::NoneValue(p) => PayloadModel::NoneValue,
            Payload::Ellipsis(p) => PayloadModel::Ellipsis,
            Payload::NotImplemented(p) => PayloadModel::NotImplemented,
            Payload::Int(p) => PayloadModel::Int { value: bigint_value(p.value) },
            Payload::Float(p) => PayloadModel::Float { bits: p.bits },
            Payload::Complex(p) => PayloadModel::Complex { value: p.value },
            Payload::Str(p) => PayloadModel::Str { value: p.value@ },
            Payload::Bytes(p) => PayloadModel::Bytes { value: p.value@ },
            Payload::ByteArray(p) => PayloadModel::ByteArray { value: p.value@ },
            Payload::Tuple(p) => PayloadModel::Tuple { elements: p.elements@ },
            Payload::List(p) => PayloadModel::List { elements: p.elements@ },
            Payload::SetValue(p) => PayloadModel::SetValue { elements: p.elements@ },
            Payload::Dict(p) => PayloadModel::Dict { entries: p.entries@ },
            Payload::BuiltinFunction(p) => PayloadModel::BuiltinFunction { value: p.value },
            Payload::ReadOnlyProperty(p) => PayloadModel::ReadOnlyProperty { getter: p.getter },
            Payload::Frame(p) => PayloadModel::Frame {
                code: p.code,
                locals: p.scope.locals@,
                globals: p.scope.globals,
            },
            Payload::Code(p) => PayloadModel::Code { code: p.code@ },
            Payload::Function(p) => PayloadModel::Function {
                code: p.code,
                locals: p.scope.locals@,
                globals: p.scope.globals,
                defaults: p.defaults,
            },
            Payload::Method(p) => PayloadModel::Method { object: p.object, function: p.function },
            Payload::Iterator(p) => PayloadModel::Iterator {
                position: p.position as nat,
                iterated_obj: p.iterated_obj,
            },
        }
    }
}

/// A number for each type of payload.
pub open spec fn payload_kind(p: PayloadModel) -> nat {
    match p {
        PayloadModel::Class { .. } => 0,
        PayloadModel::Module { .. } => 1,
        PayloadModel::Instance => 2,
        PayloadModel::NoneValue => 3,
        PayloadModel::Ellipsis => 4,
        PayloadModel::NotImplemented => 5,
        PayloadModel::Int { .. } => 6,
        PayloadModel::Float { .. } => 7,
        PayloadModel::Complex { .. } => 8,
        PayloadModel::Str { .. } => 9,
        PayloadModel::Bytes { .. } => 10,
        PayloadModel::ByteArray { .. } => 11,
        PayloadModel::Tuple { .. } => 12,
        PayloadModel::List { .. } => 13,
        PayloadModel::SetValue { .. } => 14,
        PayloadModel::Dict { .. } => 15,
        PayloadModel::BuiltinFunction { .. } => 16,
        PayloadModel::ReadOnlyProperty { .. } => 17,
        PayloadModel::Frame { .. } => 18,
        PayloadModel::Code { .. } => 19,
        PayloadModel::Function { .. } => 20,
        PayloadModel::Method { .. } => 21,
        PayloadModel::Iterator { .. } => 22,
    }
}

/// Implemented by the types that can be the payload of an object.
pub trait PyObjectPayload: Sized {
    /// The payload without its type.
    spec fn as_payload(self) -> Payload;

    /// `p` is the value of a payload of this type.
    spec fn is_model(p: PayloadModel) -> bool;

    /// The `payload_kind` of the payloads of this type.
    spec fn kind() -> nat;

    /// Forgets the type of the payload.
    fn into_payload(self) -> (p: Payload)
        ensures
            p == self.as_payload(),
            Self::is_model(p@),
    ;

    /// Gets the payload back, if it is of this type.
    fn downcast_ref(p: &Payload) -> (r: Option<&Self>)
        ensures
            r is Some == Self::is_model(p@),
            r matches Some(v) ==> v.as_payload() == *p,
    ;

    /// The payload can be put into the heap: it refers to objects of the heap
    /// only.
    fn fits_heap(&self, heap: &PyHeap) -> (r: bool)
        ensures
            r == payload_fits(heap@, heap@.len(), self.as_payload()@),
    ;

    /// What is a payload of this type is told by its kind.
    proof fn lemma_kind(p: PayloadModel)
        ensures
            Self::is_model(p) == (payload_kind(p) == Self::kind()),
    ;

    /// A value of this type is a payload of this type, and different values are
    /// different payloads.
    proof fn lemma_as_payload(a: Self, b: Self)
        ensures
            Self::is_model(a.as_payload()@),
            a.as_payload() == b.as_payload() ==> a == b,
    ;
}

impl PyObjectPayload for PyClass {
    open spec fn as_payload(self) -> Payload {
        Payload::Class(self)
    }

    open spec fn is_model(p: PayloadModel) -> bool {
        p is Class
    }

    open spec fn kind() -> nat {
        0
    }

    fn into_payload(self) -> Payload {
        Payload::Class(self)
    }

    fn downcast_ref(p: &Payload) -> Option<&Self> {
        match p {
            Payload::Class(v) => Some(v),
            _ => None,
        }
    }

    fn fits_heap(&self, heap: &PyHeap) -> bool {
        let r = heap.holds_classes(&self.mro);
        proof {
            let mro = self.mro@;
            assert(self.as_payload()@ == (PayloadModel::Class { name: self.name@, mro }));
            if payload_fits(heap@, heap@.len(), self.as_payload()@) {
                assert forall|i: int| 0 <= i < mro.len() implies is_class(
                    heap@,
                    (#[trigger] mro[i])@,
                ) by {
                    assert(self.as_payload()@->mro[i] == mro[i]);
                }
            }
        }
        r
    }

    proof fn lemma_kind(p: PayloadModel) {
    }

    proof fn lemma_as_payload(a: Self, b: Self) {
    }
}

impl PyObjectPayload for PyModule {
    open spec fn as_payload(self) -> Payload {
        Payload::Module(self)
    }

    open spec fn is_model(p: PayloadModel) -> bool {
        p is Module
    }

    open spec fn kind() -> nat {
        1
    }

    fn into_payload(self) -> Payload {
        Payload::Module(self)
    }

    fn downcast_ref(p: &Payload) -> Option<&Self> {
        match p {
            Payload::Module(v) => Some(v),
            _ => None,
        }
    }

    fn fits_heap(&self, heap: &PyHeap) -> bool {
        heap.holds(&self.dict)
    }

    proof fn lemma_kind(p: PayloadModel) {
    }

    proof fn lemma_as_payload(a: Self, b: Self) {
    }
}

impl PyObjectPayload for PyInstance {
    open spec fn as_payload(self) -> Payload {
        Payload::Instance(self)
    }

    open spec fn is_model(p: PayloadModel) -> bool {
        p is Instance
    }

    open spec fn kind() -> nat {
        2
    }

    fn into_payload(self) -> Payload {
        Payload::Instance(self)
    }

    fn downcast_ref(p: &Payload) -> Option<&Self> {
        match p {
            Payload::Instance(v) => Some(v),
            _ => None,
        }
    }

    fn fits_heap(&self, heap: &PyHeap) -> bool {
        true
    }

    proof fn lemma_kind(p: PayloadModel) {
    }

    proof fn lemma_as_payload(a: Self, b: Self) {
    }
}

impl PyObjectPayload for PyNone {
    open spec fn as_payload(self) -> Payload {
        Payload::NoneValue(self)
    }

    open spec fn is_model(p: PayloadModel) -> bool {
        p is NoneValue
    }

    open spec fn kind() -> nat {
        3
    }

    fn into_payload(self) -> Payload {
        Payload::NoneValue(self)
    }

    fn downcast_ref(p: &Payload) -> Option<&Self> {
        match p {
            Payload::NoneValue(v) => Some(v),
            _ => None,
        }
    }

    fn fits_heap(&self, heap: &PyHeap) -> bool {
        true
    }

    proof fn lemma_kind(p: PayloadModel) {
    }

    proof fn lemma_as_payload(a: Self, b: Self) {
    }
}

impl PyObjectPayload for PyEllipsis {
    open spec fn as_payload(self) -> Payload {
        Payload::Ellipsis(self)
    }

    open spec fn is_model(p: PayloadModel) -> bool {
        p is Ellipsis
    }

    open spec fn kind() -> nat {
        4
    }

    fn into_payload(self) -> Payload {
        Payload::Ellipsis(self)
    }

    fn downcast_ref(p: &Payload) -> Option<&Self> {
        match p {
            Payload::Ellipsis(v) => Some(v),
            _ => None,
        }
    }

    fn fits_heap(&self, heap: &PyHeap) -> bool {
        true
    }

    proof fn lemma_kind(p: PayloadModel) {
    }

    proof fn lemma_as_payload(a: Self, b: Self) {
    }
}

impl PyObjectPayload for PyNotImplemented {
    open spec fn as_payload(self) -> Payload {
        Payload::NotImplemented(self)
    }

    open spec fn is_model(p: PayloadModel) -> bool {
        p is NotImplemented
    }

    open spec fn kind() -> nat {
        5
    }

    fn into_payload(self) -> Payload {
        Payload::NotImplemented(self)
    }

    fn downcast_ref(p: &Payload) -> Option<&Self> {
        match p {
            Payload::NotImplemented(v) => Some(v),
            _ => None,
        }
    }

    fn fits_heap(&self, heap: &PyHeap) -> bool {
        true
    }

    proof fn lemma_kind(p: PayloadModel) {
    }

    proof fn lemma_as_payload(a: Self, b: Self) {
    }
}

impl PyObjectPayload for PyInt {
    open spec fn as_payload(self) -> Payload {
        Payload::Int(self)
    }

    open spec fn is_model(p: PayloadModel) -> bool {
        p is Int
    }

    open spec fn kind() -> nat {
        6
    }

    fn into_payload(self) -> Payload {
        Payload::Int(self)
    }

    fn downcast_ref(p: &Payload) -> Option<&Self> {
        match p {
            Payload::Int(v) => Some(v),
            _ => None,
        }
    }

    fn fits_heap(&self, heap: &PyHeap) -> bool {
        true
    }

    proof fn lemma_kind(p: PayloadModel) {
    }

    proof fn lemma_as_payload(a: Self, b: Self) {
    }
}

impl PyObjectPayload for PyFloat {
    open spec fn as_payload(self) -> Payload {
        Payload::Float(self)
    }

    open spec fn is_model(p: PayloadModel) -> bool {
        p is Float
    }

    open spec fn kind() -> nat {
        7
    }

    fn into_payload(self) -> Payload {
        Payload::Float(self)
    }

    fn downcast_ref(p: &Payload) -> Option<&Self> {
        match p {
            Payload::Float(v) => Some(v),
            _ => None,
        }
    }

    fn fits_heap(&self, heap: &PyHeap) -> bool {
        true
    }

    proof fn lemma_kind(p: PayloadModel) {
    }

    proof fn lemma_as_payload(a: Self, b: Self) {
    }
}

impl PyObjectPayload for PyComplex {
    open spec fn as_payload(self) -> Payload {
        Payload::Complex(self)
    }

    open spec fn is_model(p: PayloadModel) -> bool {
        p is Complex
    }

    open spec fn kind() -> nat {
        8
    }

    fn into_payload(self) -> Payload {
        Payload::Complex(self)
    }

    fn downcast_ref(p: &Payload) -> Option<&Self> {
        match p {
            Payload::Complex(v) => Some(v),
            _ => None,
        }
    }

    fn fits_heap(&self, heap: &PyHeap) -> bool {
        true
    }

    proof fn lemma_kind(p: PayloadModel) {
    }

    proof fn lemma_as_payload(a: Self, b: Self) {
    }
}

impl PyObjectPayload for PyString {
    open spec fn as_payload(self) -> Payload {
        Payload::Str(self)
    }

    open spec fn is_model(p: PayloadModel) -> bool {
        p is Str
    }

    open spec fn kind() -> nat {
        9
    }

    fn into_payload(self) -> Payload {
        Payload::Str(self)
    }

    fn downcast_ref(p: &Payload) -> Option<&Self> {
        match p {
            Payload::Str(v) => Some(v),
            _ => None,
        }
    }

    fn fits_heap(&self, heap: &PyHeap) -> bool {
        true
    }

    proof fn lemma_kind(p: PayloadModel) {
    }

    proof fn lemma_as_payload(a: Self, b: Self) {
    }
}

impl PyObjectPayload for PyBytes {
    open spec fn as_payload(self) -> Payload {
        Payload::Bytes(self)
    }

    open spec fn is_model(p: PayloadModel) -> bool {
        p is Bytes
    }

    open spec fn kind() -> nat {
        10
    }

    fn into_payload(self) -> Payload {
        Payload::Bytes(self)
    }

    fn downcast_ref(p: &Payload) -> Option<&Self> {
        match p {
            Payload::Bytes(v) => Some(v),
            _ => None,
        }
    }

    fn fits_heap(&self, heap: &PyHeap) -> bool {
        true
    }

    proof fn lemma_kind(p: PayloadModel) {
    }

    proof fn lemma_as_payload(a: Self, b: Self) {
    }
}

impl PyObjectPayload for PyByteArray {
    open spec fn as_payload(self) -> Payload {
        Payload::ByteArray(self)
    }

    open spec fn is_model(p: PayloadModel) -> bool {
        p is ByteArray
    }

    open spec fn kind() -> nat {
        11
    }

    fn into_payload(self) -> Payload {
        Payload::ByteArray(self)
    }

    fn downcast_ref(p: &Payload) -> Option<&Self> {
        match p {
            Payload::ByteArray(v) => Some(v),
            _ => None,
        }
    }

    fn fits_heap(&self, heap: &PyHeap) -> bool {
        true
    }

    proof fn lemma_kind(p: PayloadModel) {
    }

    proof fn lemma_as_payload(a: Self, b: Self) {
    }
}

impl PyObjectPayload for PyTuple {
    open spec fn as_payload(self) -> Payload {
        Payload::Tuple(self)
    }

    open spec fn is_model(p: PayloadModel) -> bool {
        p is Tuple
    }

    open spec fn kind() -> nat {
        12
    }

    fn into_payload(self) -> Payload {
        Payload::Tuple(self)
    }

    fn downcast_ref(p: &Payload) -> Option<&Self> {
        match p {
            Payload::Tuple(v) => Some(v),
            _ => None,
        }
    }

    fn fits_heap(&self, heap: &PyHeap) -> bool {
        heap.holds_all(&self.elements)
    }

    proof fn lemma_kind(p: PayloadModel) {
    }

    proof fn lemma_as_payload(a: Self, b: Self) {
    }
}

impl PyObjectPayload for PyList {
    open spec fn as_payload(self) -> Payload {
        Payload::List(self)
    }

    open spec fn is_model(p: PayloadModel) -> bool {
        p is List
    }

    open spec fn kind() -> nat {
        13
    }

    fn into_payload(self) -> Payload {
        Payload::List(self)
    }

    fn downcast_ref(p: &Payload) -> Option<&Self> {
        match p {
            Payload::List(v) => Some(v),
            _ => None,
        }
    }

    fn fits_heap(&self, heap: &PyHeap) -> bool {
        heap.holds_all(&self.elements)
    }

    proof fn lemma_kind(p: PayloadModel) {
    }

    proof fn lemma_as_payload(a: Self, b: Self) {
    }
}

impl PyObjectPayload for PySet {
    open spec fn as_payload(self) -> Payload {
        Payload::SetValue(self)
    }

    open spec fn is_model(p: PayloadModel) -> bool {
        p is SetValue
    }

    open spec fn kind() -> nat {
        14
    }

    fn into_payload(self) -> Payload {
        Payload::SetValue(self)
    }

    fn downcast_ref(p: &Payload) -> Option<&Self> {
        match p {
            Payload::SetValue(v) => Some(v),
            _ => None,
        }
    }

    fn fits_heap(&self, heap: &PyHeap) -> bool {
        heap.holds_all(&self.elements)
    }

    proof fn lemma_kind(p: PayloadModel) {
    }

    proof fn lemma_as_payload(a: Self, b: Self) {
    }
}

impl PyObjectPayload for PyDict {
    open spec fn as_payload(self) -> Payload {
        Payload::Dict(self)
    }

    open spec fn is_model(p: PayloadModel) -> bool {
        p is Dict
    }

    open spec fn kind() -> nat {
        15
    }

    fn into_payload(self) -> Payload {
        Payload::Dict(self)
    }

    fn downcast_ref(p: &Payload) -> Option<&Self> {
        match p {
            Payload::Dict(v) => Some(v),
            _ => None,
        }
    }

    fn fits_heap(&self, heap: &PyHeap) -> bool {
        heap.holds_entries(&self.entries)
    }

    proof fn lemma_kind(p: PayloadModel) {
    }

    proof fn lemma_as_payload(a: Self, b: Self) {
    }
}

impl PyObjectPayload for PyBuiltinFunction {
    open spec fn as_payload(self) -> Payload {
        Payload::BuiltinFunction(self)
    }

    open spec fn is_model(p: PayloadModel) -> bool {
        p is BuiltinFunction
    }

    open spec fn kind() -> nat {
        16
    }

    fn into_payload(self) -> Payload {
        Payload::BuiltinFunction(self)
    }

    fn downcast_ref(p: &Payload) -> Option<&Self> {
        match p {
            Payload::BuiltinFunction(v) => Some(v),
            _ => None,
        }
    }

    fn fits_heap(&self, heap: &PyHeap) -> bool {
        true
    }

    proof fn lemma_kind(p: PayloadModel) {
    }

    proof fn lemma_as_payload(a: Self, b: Self) {
    }
}

impl PyObjectPayload for PyReadOnlyProperty {
    open spec fn as_payload(self) -> Payload {
        Payload::ReadOnlyProperty(self)
    }

    open spec fn is_model(p: PayloadModel) -> bool {
        p is ReadOnlyProperty
    }

    open spec fn kind() -> nat {
        17
    }

    fn into_payload(self) -> Payload {
        Payload::ReadOnlyProperty(self)
    }

    fn downcast_ref(p: &Payload) -> Option<&Self> {
        match p {
            Payload::ReadOnlyProperty(v) => Some(v),
            _ => None,
        }
    }

    fn fits_heap(&self, heap: &PyHeap) -> bool {
        heap.holds(&self.getter)
    }

    proof fn lemma_kind(p: PayloadModel) {
    }

    proof fn lemma_as_payload(a: Self, b: Self) {
    }
}

impl PyObjectPayload for Frame {
    open spec fn as_payload(self) -> Payload {
        Payload::Frame(self)
    }

    open spec fn is_model(p: PayloadModel) -> bool {
        p is Frame
    }

    open spec fn kind() -> nat {
        18
    }

    fn into_payload(self) -> Payload {
        Payload::Frame(self)
    }

    fn downcast_ref(p: &Payload) -> Option<&Self> {
        match p {
            Payload::Frame(v) => Some(v),
            _ => None,
        }
    }

    fn fits_heap(&self, heap: &PyHeap) -> bool {
        heap.holds(&self.code)
            && heap.holds_all(&self.scope.locals)
            && heap.holds(&self.scope.globals)
    }

    proof fn lemma_kind(p: PayloadModel) {
    }

    proof fn lemma_as_payload(a: Self, b: Self) {
    }
}

impl PyObjectPayload for PyCode {
    open spec fn as_payload(self) -> Payload {
        Payload::Code(self)
    }

    open spec fn is_model(p: PayloadModel) -> bool {
        p is Code
    }

    open spec fn kind() -> nat {
        19
    }

    fn into_payload(self) -> Payload {
        Payload::Code(self)
    }

    fn downcast_ref(p: &Payload) -> Option<&Self> {
        match p {
            Payload::Code(v) => Some(v),
            _ => None,
        }
    }

    fn fits_heap(&self, heap: &PyHeap) -> bool {
        true
    }

    proof fn lemma_kind(p: PayloadModel) {
    }

    proof fn lemma_as_payload(a: Self, b: Self) {
    }
}

impl PyObjectPayload for PyFunction {
    open spec fn as_payload(self) -> Payload {
        Payload::Function(self)
    }

    open spec fn is_model(p: PayloadModel) -> bool {
        p is Function
    }

    open spec fn kind() -> nat {
        20
    }

    fn into_payload(self) -> Payload {
        Payload::Function(self)
    }

    fn downcast_ref(p: &Payload) -> Option<&Self> {
        match p {
            Payload::Function(v) => Some(v),
            _ => None,
        }
    }

    fn fits_heap(&self, heap: &PyHeap) -> bool {
        heap.holds(&self.code)
            && heap.holds_all(&self.scope.locals)
            && heap.holds(&self.scope.globals)
            && heap.holds(&self.defaults)
    }

    proof fn lemma_kind(p: PayloadModel) {
    }

    proof fn lemma_as_payload(a: Self, b: Self) {
    }
}

impl PyObjectPayload for PyMethod {
    open spec fn as_payload(self) -> Payload {
        Payload::Method(self)
    }

    open spec fn is_model(p: PayloadModel) -> bool {
        p is Method
    }

    open spec fn kind() -> nat {
        21
    }

    fn into_payload(self) -> Payload {
        Payload::Method(self)
    }

    fn downcast_ref(p: &Payload) -> Option<&Self> {
        match p {
            Payload::Method(v) => Some(v),
            _ => None,
        }
    }

    fn fits_heap(&self, heap: &PyHeap) -> bool {
        heap.holds(&self.object) && heap.holds(&self.function)
    }

    proof fn lemma_kind(p: PayloadModel) {
    }

    proof fn lemma_as_payload(a: Self, b: Self) {
    }
}

impl PyObjectPayload for PyIteratorValue {
    open spec fn as_payload(self) -> Payload {
        Payload::Iterator(self)
    }

    open spec fn is_model(p: PayloadModel) -> bool {
        p is Iterator
    }

    open spec fn kind() -> nat {
        22
    }

    fn into_payload(self) -> Payload {
        Payload::Iterator(self)
    }

    fn downcast_ref(p: &Payload) -> Option<&Self> {
        match p {
            Payload::Iterator(v) => Some(v),
            _ => None,
        }
    }

    fn fits_heap(&self, heap: &PyHeap) -> bool {
        heap.holds(&self.iterated_obj)
    }

    proof fn lemma_kind(p: PayloadModel) {
    }

    proof fn lemma_as_payload(a: Self, b: Self) {
    }
}

} // verus!
