//! What conversions and iteration give, in terms of the heap and of the outcomes
//! of the calls that they depend on.
use crate::bytecode::CodeObject;
use crate::context::{lemma_derived_valid, PyContext};
use crate::convert::{
    Conversion, IntoPyObject, MismatchKind, MismatchStep, TryFromObject, TryIntoRef, TypeMismatch,
};
use crate::describe::{is_bytes_like, BufferProtocol};
use crate::frame::{Frame, Scope};
use crate::iter::{PyIterable, PyIterator, VmCall};
use crate::law_classes::law_builtin_types_carry;
use crate::object::{
    lemma_same_ref, lemma_typed, HeapModel, ObjectModel, PyClassRef, PyHeap, PyObject, PyObjectRef,
    PyRef, PyResult,
};
use crate::objtype::{class_mro, subclass};
use crate::payload::{
    payload_kind, Payload, PyBuiltinFunction, PyByteArray, PyBytes, PyClass, PyCode, PyComplex,
    PyDict, PyEllipsis, PyFloat, PyFunction, PyInstance, PyInt, PyList, PyMethod, PyModule,
    PyNativeFunc, PyNone, PyNotImplemented, PyReadOnlyProperty, PySet, PyString, PyTuple,
};
use crate::value::PyValue;
use num_bigint::BigInt;
use num_complex::Complex64;
use vstd::prelude::*;

verus! {

/// The class is the one that is asked for or lists it.
pub open spec fn listed(h: HeapModel, class: PyObjectRef, asked: PyObjectRef) -> bool {
    class == asked || exists|i: int|
        0 <= i < h[class@ as int].payload->mro.len() && (
        #[trigger] h[class@ as int].payload->mro[i])@ == asked
}

/// To be listed is to be the class or to be among those that it lists.
pub proof fn law_listed(h: HeapModel, class: PyObjectRef, asked: PyObjectRef)
    ensures
        class == asked ==> listed(h, class, asked),
        forall|i: int|
            0 <= i < h[class@ as int].payload->mro.len() && (
            #[trigger] h[class@ as int].payload->mro[i])@ == asked ==> listed(h, class, asked),
        listed(h, class, asked) && class != asked ==> exists|i: int|
            0 <= i < h[class@ as int].payload->mro.len() && (
            #[trigger] h[class@ as int].payload->mro[i])@ == asked,
{
}

proof fn lemma_listed(h: HeapModel, class: PyObjectRef, asked: PyObjectRef)
    ensures
        listed(h, class, asked) == subclass(h, class, asked),
{
    let m = class_mro(h, class);
    assert(m == h[class@ as int].payload->mro);
    if subclass(h, class, asked) && class != asked {
        let i = choose|i: int| 0 <= i < m.len() && (#[trigger] m[i])@ == asked;
        assert(h[class@ as int].payload->mro[i]@ == asked);
    }
    if listed(h, class, asked) && class != asked {
        let i = choose|i: int|
            0 <= i < h[class@ as int].payload->mro.len() && (
            #[trigger] h[class@ as int].payload->mro[i])@ == asked;
        assert(m[i]@ == asked);
    }
}

/// An object is converted to a reference to itself exactly if its type is the
/// class of the type of reference, or lists it, and it carries such a payload.
/// Otherwise the mismatch names first the class and then the type of the object.
/// Coercing an object comes to the same.
pub proof fn law_typed_conversion<T: PyValue>(
    ctx: PyContext,
    obj: PyObjectRef,
    method: Option<PyResult>,
    out: Conversion<PyRef<T>>,
)
    requires
        call_ensures(<PyRef<T> as TryFromObject>::try_from_object, (&ctx, obj, method), out)
            || call_ensures(<PyObjectRef as TryIntoRef<T>>::try_into_ref, (obj, &ctx), out),
    ensures
        listed(ctx.heap@, ctx.heap@[obj@ as int].typ, T::class_in(ctx)@) && payload_kind(
            ctx.heap@[obj@ as int].payload,
        ) == T::kind() ==> out is Ready && out->Ready_0 is Ok && out->Ready_0->Ok_0@ == obj,
        !(listed(ctx.heap@, ctx.heap@[obj@ as int].typ, T::class_in(ctx)@) && payload_kind(
            ctx.heap@[obj@ as int].payload,
        ) == T::kind()) ==> {
            &&& out is Mismatch
            &&& out->Mismatch_0.kind == MismatchKind::NotExpected
            &&& out->Mismatch_0.first == T::class_in(ctx)@
            &&& out->Mismatch_0.second == ctx.heap@[obj@ as int].typ
            &&& out->Mismatch_0.first_str is None
        },
{
    broadcast use lemma_typed;

    lemma_listed(ctx.heap@, ctx.heap@[obj@ as int].typ, T::class_in(ctx)@);
    T::lemma_kind(ctx.heap@[obj@ as int].payload);
}

/// A typed reference is coerced to itself, and any object is converted to
/// itself. Neither needs a method of the object.
pub proof fn law_converted_to_itself<T: PyValue>(
    ctx: PyContext,
    p: PyRef<T>,
    obj: PyObjectRef,
    method: Option<PyResult>,
    out: Conversion<PyRef<T>>,
    same: Conversion<PyObjectRef>,
    needed: Option<String>,
)
    ensures
        call_ensures(<PyRef<T> as TryIntoRef<T>>::try_into_ref, (p, &ctx), out) ==> out
            == Conversion::<PyRef<T>>::Ready(Ok(p)),
        call_ensures(<PyObjectRef as TryFromObject>::try_from_object, (&ctx, obj, method), same)
            ==> same == Conversion::<PyObjectRef>::Ready(Ok(obj)),
        call_ensures(<PyRef<T> as TryFromObject>::needed_method, (&ctx, &obj), needed)
            ==> needed is None,
        call_ensures(<PyObjectRef as TryFromObject>::needed_method, (&ctx, &obj), needed)
            ==> needed is None,
{
}

/// The optional conversion of `None` gives no value. That of any other object
/// fails exactly as the plain one does, with the same exception or the same
/// mismatch, and otherwise gives its value. So no value comes of `None` only.
pub proof fn law_optional_conversion<T: TryFromObject>(
    ctx: PyContext,
    obj: PyObjectRef,
    method: Option<PyResult>,
    out: Conversion<Option<T>>,
    plain: Conversion<T>,
)
    requires
        call_ensures(<Option<T> as TryFromObject>::try_from_object, (&ctx, obj, method), out),
        call_ensures(T::try_from_object, (&ctx, obj, method), plain),
    ensures
        obj == ctx.none@ ==> out == Conversion::<Option<T>>::Ready(Ok(None)),
        obj != ctx.none@ ==> match plain {
            Conversion::Ready(Ok(v)) => out == Conversion::<Option<T>>::Ready(Ok(Some(v))),
            Conversion::Ready(Err(e)) => out == Conversion::<Option<T>>::Ready(Err(e)),
            Conversion::Mismatch(m) => out == Conversion::<Option<T>>::Mismatch(m),
        },
        out == Conversion::<Option<T>>::Ready(Ok(None)) <==> obj == ctx.none@,
{
}

/// An optional conversion needs the method that the plain one needs, but none of
/// `None`.
pub proof fn law_optional_needs<T: TryFromObject>(
    ctx: PyContext,
    obj: PyObjectRef,
    needed: Option<String>,
    plain: Option<String>,
)
    requires
        call_ensures(<Option<T> as TryFromObject>::needed_method, (&ctx, &obj), needed),
        call_ensures(T::needed_method, (&ctx, &obj), plain),
    ensures
        obj == ctx.none@ ==> needed is None,
        obj != ctx.none@ ==> needed is Some == plain is Some,
        obj != ctx.none@ && plain is Some ==> needed->0@ == plain->0@,
{
}

/// Whether an object can be asked for what a conversion depends on: a typed
/// reference asks for its type to be a class, an optional one asks nothing of
/// `None`, and the others ask nothing.
pub proof fn law_askable<T: PyValue, U: TryFromObject>(
    ctx: PyContext,
    obj: PyObjectRef,
    b: bool,
    c: bool,
)
    ensures
        call_ensures(<PyRef<T> as TryFromObject>::is_askable, (&ctx, &obj), b) ==> b == (
        ctx.heap@[obj@ as int].typ@ < ctx.heap@.len()
            && ctx.heap@[ctx.heap@[obj@ as int].typ@ as int].payload is Class),
        call_ensures(<PyObjectRef as TryFromObject>::is_askable, (&ctx, &obj), b) ==> b,
        call_ensures(<PyIterable<U> as TryFromObject>::is_askable, (&ctx, &obj), b) ==> b,
        call_ensures(<Option<U> as TryFromObject>::is_askable, (&ctx, &obj), b) && call_ensures(
            U::is_askable,
            (&ctx, &obj),
            c,
        ) ==> b == (obj == ctx.none@ || c),
{
}

/// What is needed of a mismatch is how its first type and then how its second
/// type is printed. An exception that comes of asking is raised as it is, and
/// when both are known the message names them in their order.
pub proof fn law_mismatch_is_answered(
    m: TypeMismatch,
    asked: PyObjectRef,
    text: PyResult<String>,
    step: MismatchStep,
)
    requires
        call_ensures(TypeMismatch::asks, (&m,), asked),
        call_ensures(TypeMismatch::answer, (m, text), step),
    ensures
        m.first_str is None ==> asked == m.first,
        m.first_str is Some ==> asked == m.second,
        text is Err ==> step == MismatchStep::Raise(text->Err_0),
        text is Ok && m.first_str is None ==> {
            &&& step is Ask
            &&& step->Ask_0.kind == m.kind
            &&& step->Ask_0.first == m.first
            &&& step->Ask_0.second == m.second
            &&& step->Ask_0.first_str == Some(text->Ok_0)
        },
        text is Ok && m.first_str is Some && m.kind == MismatchKind::NotExpected ==> {
            &&& step is RaiseTypeError
            &&& step->RaiseTypeError_0@ == "Expected type "@ + m.first_str->0@ + ", not "@
                + text->Ok_0@
        },
        text is Ok && m.first_str is Some && m.kind == MismatchKind::NotSubtype ==> {
            &&& step is RaiseTypeError
            &&& step->RaiseTypeError_0@ == m.first_str->0@ + " is not a subtype of "@
                + text->Ok_0@
        },
{
}

/// A reference becomes the object that it refers to, whichever that is, and
/// nothing changes.
pub proof fn law_reference_becomes_its_object<T>(
    ctx: &mut PyContext,
    obj: PyObjectRef,
    p: PyRef<T>,
    r: PyResult,
)
    ensures
        call_ensures(<PyObjectRef as IntoPyObject>::into_pyobject, (obj, ctx), r) ==> {
            &&& r == PyResult::<PyObjectRef>::Ok(obj)
            &&& final(ctx).heap@ == old(ctx).heap@
            &&& *final(ctx) == (PyContext { heap: final(ctx).heap, ..*old(ctx) })
        },
        call_ensures(<PyRef<T> as IntoPyObject>::into_pyobject, (p, ctx), r) ==> {
            &&& r == PyResult::<PyObjectRef>::Ok(p@)
            &&& final(ctx).heap@ == old(ctx).heap@
            &&& *final(ctx) == (PyContext { heap: final(ctx).heap, ..*old(ctx) })
        },
{
}

/// A value of a payload type becomes a new object of its class that carries the
/// value and has no attributes, and nothing else changes. The object is
/// converted back to a reference to it.
pub proof fn law_value_becomes_an_object<T: PyValue>(
    ctx: &mut PyContext,
    v: T,
    r: PyResult,
    back: Conversion<PyRef<T>>,
)
    requires
        old(ctx).wf(),
        call_ensures(<T as IntoPyObject>::into_pyobject, (v, ctx), r),
        r is Ok ==> call_ensures(
            <PyRef<T> as TryFromObject>::try_from_object,
            (final(ctx), r->Ok_0, None),
            back,
        ),
    ensures
        r is Ok,
        r->Ok_0@ == old(ctx).heap@.len(),
        final(ctx).heap@ == old(ctx).heap@.push(
            ObjectModel {
                typ: T::class_in(*old(ctx))@,
                dict: Some(Map::empty()),
                payload: v.as_payload()@,
            },
        ),
        *final(ctx) == (PyContext { heap: final(ctx).heap, ..*old(ctx) }),
        back is Ready && back->Ready_0 is Ok && back->Ready_0->Ok_0@ == r->Ok_0,
{
    T::lemma_class_stays(*old(ctx), *final(ctx));
    T::lemma_as_payload(v, v);
    T::lemma_kind(v.as_payload()@);
    law_typed_conversion(*final(ctx), r->Ok_0, None, back);
}

/// An exception stays that exception, and a result becomes what its value
/// becomes.
pub proof fn law_result_becomes<T: IntoPyObject, U: PyValue>(
    ctx: &mut PyContext,
    e: PyObjectRef,
    v: T,
    obj: PyObjectRef,
    p: PyRef<U>,
    u: U,
    r: PyResult,
)
    ensures
        call_ensures(<PyResult<T> as IntoPyObject>::into_pyobject, (Err(e), ctx), r) ==> {
            &&& r == PyResult::<PyObjectRef>::Err(e)
            &&& final(ctx).heap@ == old(ctx).heap@
        },
        call_ensures(<PyResult<T> as IntoPyObject>::into_pyobject, (Ok(v), ctx), r)
            ==> v.becomes(*old(ctx), old(ctx).heap@, final(ctx).heap@, r),
        call_ensures(<PyResult<PyObjectRef> as IntoPyObject>::into_pyobject, (Ok(obj), ctx), r)
            ==> {
            &&& r == PyResult::<PyObjectRef>::Ok(obj)
            &&& final(ctx).heap@ == old(ctx).heap@
        },
        call_ensures(<PyResult<PyRef<U>> as IntoPyObject>::into_pyobject, (Ok(p), ctx), r) ==> {
            &&& r == PyResult::<PyObjectRef>::Ok(p@)
            &&& final(ctx).heap@ == old(ctx).heap@
        },
        call_ensures(<PyResult<U> as IntoPyObject>::into_pyobject, (Ok(u), ctx), r) ==> {
            &&& r is Ok
            &&& r->Ok_0@ == old(ctx).heap@.len()
            &&& final(ctx).heap@ == old(ctx).heap@.push(
                ObjectModel {
                    typ: U::class_in(*old(ctx))@,
                    dict: Some(Map::empty()),
                    payload: u.as_payload()@,
                },
            )
        },
{
}

/// A value is made into a new object of its class that carries it, and is
/// converted back to the reference to it.
pub proof fn law_value_is_made_into_a_reference<T: PyValue>(
    ctx: &mut PyContext,
    v: T,
    r: PyRef<T>,
    back: Conversion<PyRef<T>>,
)
    requires
        old(ctx).wf(),
        call_ensures(<T as PyValue>::into_ref, (v, ctx), r),
        call_ensures(
            <PyRef<T> as TryFromObject>::try_from_object,
            (final(ctx), r@, None),
            back,
        ),
    ensures
        r@@ == old(ctx).heap@.len(),
        final(ctx).heap@ == old(ctx).heap@.push(
            ObjectModel {
                typ: T::class_in(*old(ctx))@,
                dict: Some(Map::empty()),
                payload: v.as_payload()@,
            },
        ),
        *final(ctx) == (PyContext { heap: final(ctx).heap, ..*old(ctx) }),
        back == Conversion::<PyRef<T>>::Ready(Ok(r)),
{
    broadcast use {lemma_typed, lemma_same_ref};

    T::lemma_class_stays(*old(ctx), *final(ctx));
    T::lemma_as_payload(v, v);
    T::lemma_kind(v.as_payload()@);
    law_typed_conversion(*final(ctx), r@, None, back);
}

/// A value is made into a new object of a class that is its own or lists it, and
/// carries the value. For any other class nothing is made, and the mismatch names
/// first that class and then its own.
pub proof fn law_value_takes_a_class<T: PyValue>(
    ctx: &mut PyContext,
    v: T,
    cls: PyClassRef,
    out: Conversion<PyRef<T>>,
)
    requires
        call_ensures(<T as PyValue>::into_ref_with_type, (v, ctx, cls), out),
    ensures
        *final(ctx) == (PyContext { heap: final(ctx).heap, ..*old(ctx) }),
        listed(old(ctx).heap@, cls@, T::class_in(*old(ctx))@) ==> {
            &&& out is Ready && out->Ready_0 is Ok
            &&& out->Ready_0->Ok_0@@ == old(ctx).heap@.len()
            &&& final(ctx).heap@ == old(ctx).heap@.push(
                ObjectModel { typ: cls@, dict: Some(Map::empty()), payload: v.as_payload()@ },
            )
        },
        !listed(old(ctx).heap@, cls@, T::class_in(*old(ctx))@) ==> {
            &&& final(ctx).heap@ == old(ctx).heap@
            &&& out is Mismatch
            &&& out->Mismatch_0.kind == MismatchKind::NotSubtype
            &&& out->Mismatch_0.first == cls@
            &&& out->Mismatch_0.second == T::class_in(*old(ctx))@
            &&& out->Mismatch_0.first_str is None
        },
{
    lemma_listed(old(ctx).heap@, cls@, T::class_in(*old(ctx))@);
}


/// What `new_object` makes is converted to a reference to it by the type of its
/// payload.
pub proof fn law_made_object_is_converted(
    ctx: &mut PyContext,
    r: PyObjectRef,
    out: Conversion<PyRef<PyInstance>>,
)
    requires
        old(ctx).wf(),
        call_ensures(PyContext::new_object, (ctx,), r),
        call_ensures(
            <PyRef<PyInstance> as TryFromObject>::try_from_object,
            (final(ctx), r, None),
            out,
        ),
    ensures
        out is Ready && out->Ready_0 is Ok && out->Ready_0->Ok_0@ == r,
{
    broadcast use {lemma_derived_valid, lemma_typed};

    law_typed_conversion(*final(ctx), r, None, out);
}

/// What `new_int` makes is converted to a reference to it by the type of its
/// payload.
pub proof fn law_made_int_big_is_converted(
    ctx: &mut PyContext,
    n: BigInt,
    r: PyObjectRef,
    out: Conversion<PyRef<PyInt>>,
)
    requires
        old(ctx).wf(),
        call_ensures(PyContext::new_int::<BigInt>, (ctx, n), r),
        call_ensures(
            <PyRef<PyInt> as TryFromObject>::try_from_object,
            (final(ctx), r, None),
            out,
        ),
    ensures
        out is Ready && out->Ready_0 is Ok && out->Ready_0->Ok_0@ == r,
{
    broadcast use {lemma_derived_valid, lemma_typed};

    law_typed_conversion(*final(ctx), r, None, out);
}

/// What `new_int` makes is converted to a reference to it by the type of its
/// payload.
pub proof fn law_made_int_i64_is_converted(
    ctx: &mut PyContext,
    n: i64,
    r: PyObjectRef,
    out: Conversion<PyRef<PyInt>>,
)
    requires
        old(ctx).wf(),
        call_ensures(PyContext::new_int::<i64>, (ctx, n), r),
        call_ensures(
            <PyRef<PyInt> as TryFromObject>::try_from_object,
            (final(ctx), r, None),
            out,
        ),
    ensures
        out is Ready && out->Ready_0 is Ok && out->Ready_0->Ok_0@ == r,
{
    broadcast use {lemma_derived_valid, lemma_typed};

    law_typed_conversion(*final(ctx), r, None, out);
}

/// What `new_float` makes is converted to a reference to it by the type of its
/// payload.
pub proof fn law_made_float_is_converted(
    ctx: &mut PyContext,
    bits: u64,
    r: PyObjectRef,
    out: Conversion<PyRef<PyFloat>>,
)
    requires
        old(ctx).wf(),
        call_ensures(PyContext::new_float, (ctx, bits), r),
        call_ensures(
            <PyRef<PyFloat> as TryFromObject>::try_from_object,
            (final(ctx), r, None),
            out,
        ),
    ensures
        out is Ready && out->Ready_0 is Ok && out->Ready_0->Ok_0@ == r,
{
    broadcast use {lemma_derived_valid, lemma_typed};

    law_typed_conversion(*final(ctx), r, None, out);
}

/// What `new_complex` makes is converted to a reference to it by the type of its
/// payload.
pub proof fn law_made_complex_is_converted(
    ctx: &mut PyContext,
    value: Complex64,
    r: PyObjectRef,
    out: Conversion<PyRef<PyComplex>>,
)
    requires
        old(ctx).wf(),
        call_ensures(PyContext::new_complex, (ctx, value), r),
        call_ensures(
            <PyRef<PyComplex> as TryFromObject>::try_from_object,
            (final(ctx), r, None),
            out,
        ),
    ensures
        out is Ready && out->Ready_0 is Ok && out->Ready_0->Ok_0@ == r,
{
    broadcast use {lemma_derived_valid, lemma_typed};

    law_typed_conversion(*final(ctx), r, None, out);
}

/// What `new_str` makes is converted to a reference to it by the type of its
/// payload.
pub proof fn law_made_str_is_converted(
    ctx: &mut PyContext,
    s: String,
    r: PyObjectRef,
    out: Conversion<PyRef<PyString>>,
)
    requires
        old(ctx).wf(),
        call_ensures(PyContext::new_str, (ctx, s), r),
        call_ensures(
            <PyRef<PyString> as TryFromObject>::try_from_object,
            (final(ctx), r, None),
            out,
        ),
    ensures
        out is Ready && out->Ready_0 is Ok && out->Ready_0->Ok_0@ == r,
{
    broadcast use {lemma_derived_valid, lemma_typed};

    law_typed_conversion(*final(ctx), r, None, out);
}

/// What `new_bytes` makes is converted to a reference to it by the type of its
/// payload.
pub proof fn law_made_bytes_is_converted(
    ctx: &mut PyContext,
    data: Vec<u8>,
    r: PyObjectRef,
    out: Conversion<PyRef<PyBytes>>,
)
    requires
        old(ctx).wf(),
        call_ensures(PyContext::new_bytes, (ctx, data), r),
        call_ensures(
            <PyRef<PyBytes> as TryFromObject>::try_from_object,
            (final(ctx), r, None),
            out,
        ),
    ensures
        out is Ready && out->Ready_0 is Ok && out->Ready_0->Ok_0@ == r,
{
    broadcast use {lemma_derived_valid, lemma_typed};

    law_typed_conversion(*final(ctx), r, None, out);
}

/// What `new_bytearray` makes is converted to a reference to it by the type of its
/// payload.
pub proof fn law_made_bytearray_is_converted(
    ctx: &mut PyContext,
    data: Vec<u8>,
    r: PyObjectRef,
    out: Conversion<PyRef<PyByteArray>>,
)
    requires
        old(ctx).wf(),
        call_ensures(PyContext::new_bytearray, (ctx, data), r),
        call_ensures(
            <PyRef<PyByteArray> as TryFromObject>::try_from_object,
            (final(ctx), r, None),
            out,
        ),
    ensures
        out is Ready && out->Ready_0 is Ok && out->Ready_0->Ok_0@ == r,
{
    broadcast use {lemma_derived_valid, lemma_typed};

    law_typed_conversion(*final(ctx), r, None, out);
}

/// What `new_tuple` makes is converted to a reference to it by the type of its
/// payload.
pub proof fn law_made_tuple_is_converted(
    ctx: &mut PyContext,
    elements: Vec<PyObjectRef>,
    r: PyObjectRef,
    out: Conversion<PyRef<PyTuple>>,
)
    requires
        old(ctx).wf(),
        call_ensures(PyContext::new_tuple, (ctx, elements), r),
        call_ensures(
            <PyRef<PyTuple> as TryFromObject>::try_from_object,
            (final(ctx), r, None),
            out,
        ),
    ensures
        out is Ready && out->Ready_0 is Ok && out->Ready_0->Ok_0@ == r,
{
    broadcast use {lemma_derived_valid, lemma_typed};

    law_typed_conversion(*final(ctx), r, None, out);
}

/// What `new_list` makes is converted to a reference to it by the type of its
/// payload.
pub proof fn law_made_list_is_converted(
    ctx: &mut PyContext,
    elements: Vec<PyObjectRef>,
    r: PyObjectRef,
    out: Conversion<PyRef<PyList>>,
)
    requires
        old(ctx).wf(),
        call_ensures(PyContext::new_list, (ctx, elements), r),
        call_ensures(
            <PyRef<PyList> as TryFromObject>::try_from_object,
            (final(ctx), r, None),
            out,
        ),
    ensures
        out is Ready && out->Ready_0 is Ok && out->Ready_0->Ok_0@ == r,
{
    broadcast use {lemma_derived_valid, lemma_typed};

    law_typed_conversion(*final(ctx), r, None, out);
}

/// What `new_set` makes is converted to a reference to it by the type of its
/// payload.
pub proof fn law_made_set_is_converted(
    ctx: &mut PyContext,
    r: PyObjectRef,
    out: Conversion<PyRef<PySet>>,
)
    requires
        old(ctx).wf(),
        call_ensures(PyContext::new_set, (ctx,), r),
        call_ensures(
            <PyRef<PySet> as TryFromObject>::try_from_object,
            (final(ctx), r, None),
            out,
        ),
    ensures
        out is Ready && out->Ready_0 is Ok && out->Ready_0->Ok_0@ == r,
{
    broadcast use {lemma_derived_valid, lemma_typed};

    law_typed_conversion(*final(ctx), r, None, out);
}

/// What `new_dict` makes is converted to a reference to it by the type of its
/// payload.
pub proof fn law_made_dict_is_converted(
    ctx: &mut PyContext,
    r: PyObjectRef,
    out: Conversion<PyRef<PyDict>>,
)
    requires
        old(ctx).wf(),
        call_ensures(PyContext::new_dict, (ctx,), r),
        call_ensures(
            <PyRef<PyDict> as TryFromObject>::try_from_object,
            (final(ctx), r, None),
            out,
        ),
    ensures
        out is Ready && out->Ready_0 is Ok && out->Ready_0->Ok_0@ == r,
{
    broadcast use {lemma_derived_valid, lemma_typed};

    law_typed_conversion(*final(ctx), r, None, out);
}

/// What `new_module` makes is converted to a reference to it by the type of its
/// payload.
pub proof fn law_made_module_is_converted(
    ctx: &mut PyContext,
    name: &str,
    dict: PyObjectRef,
    r: PyObjectRef,
    out: Conversion<PyRef<PyModule>>,
)
    requires
        old(ctx).wf(),
        call_ensures(PyContext::new_module, (ctx, name, dict), r),
        call_ensures(
            <PyRef<PyModule> as TryFromObject>::try_from_object,
            (final(ctx), r, None),
            out,
        ),
    ensures
        out is Ready && out->Ready_0 is Ok && out->Ready_0->Ok_0@ == r,
{
    broadcast use {lemma_derived_valid, lemma_typed};

    law_typed_conversion(*final(ctx), r, None, out);
}

/// What `new_rustfunc` makes is converted to a reference to it by the type of its
/// payload.
pub proof fn law_made_rustfunc_is_converted(
    ctx: &mut PyContext,
    f: PyNativeFunc,
    r: PyObjectRef,
    out: Conversion<PyRef<PyBuiltinFunction>>,
)
    requires
        old(ctx).wf(),
        call_ensures(PyContext::new_rustfunc, (ctx, f), r),
        call_ensures(
            <PyRef<PyBuiltinFunction> as TryFromObject>::try_from_object,
            (final(ctx), r, None),
            out,
        ),
    ensures
        out is Ready && out->Ready_0 is Ok && out->Ready_0->Ok_0@ == r,
{
    broadcast use {lemma_derived_valid, lemma_typed};

    law_typed_conversion(*final(ctx), r, None, out);
}

/// What `new_property` makes is converted to a reference to it by the type of its
/// payload.
pub proof fn law_made_property_is_converted(
    ctx: &mut PyContext,
    f: PyNativeFunc,
    r: PyObjectRef,
    out: Conversion<PyRef<PyReadOnlyProperty>>,
)
    requires
        old(ctx).wf(),
        call_ensures(PyContext::new_property, (ctx, f), r),
        call_ensures(
            <PyRef<PyReadOnlyProperty> as TryFromObject>::try_from_object,
            (final(ctx), r, None),
            out,
        ),
    ensures
        out is Ready && out->Ready_0 is Ok && out->Ready_0->Ok_0@ == r,
{
    broadcast use {lemma_derived_valid, lemma_typed};

    law_typed_conversion(*final(ctx), r, None, out);
}

/// What `new_frame` makes is converted to a reference to it by the type of its
/// payload.
pub proof fn law_made_frame_is_converted(
    ctx: &mut PyContext,
    code: PyObjectRef,
    scope: Scope,
    r: PyObjectRef,
    out: Conversion<PyRef<Frame>>,
)
    requires
        old(ctx).wf(),
        call_ensures(PyContext::new_frame, (ctx, code, scope), r),
        call_ensures(
            <PyRef<Frame> as TryFromObject>::try_from_object,
            (final(ctx), r, None),
            out,
        ),
    ensures
        out is Ready && out->Ready_0 is Ok && out->Ready_0->Ok_0@ == r,
{
    broadcast use {lemma_derived_valid, lemma_typed};

    law_typed_conversion(*final(ctx), r, None, out);
}

/// What `new_code_object` makes is converted to a reference to it by the type of its
/// payload.
pub proof fn law_made_code_object_is_converted(
    ctx: &mut PyContext,
    code: CodeObject,
    r: PyObjectRef,
    out: Conversion<PyRef<PyCode>>,
)
    requires
        old(ctx).wf(),
        call_ensures(PyContext::new_code_object, (ctx, code), r),
        call_ensures(
            <PyRef<PyCode> as TryFromObject>::try_from_object,
            (final(ctx), r, None),
            out,
        ),
    ensures
        out is Ready && out->Ready_0 is Ok && out->Ready_0->Ok_0@ == r,
{
    broadcast use {lemma_derived_valid, lemma_typed};

    law_typed_conversion(*final(ctx), r, None, out);
}

/// What `new_function` makes is converted to a reference to it by the type of its
/// payload.
pub proof fn law_made_function_is_converted(
    ctx: &mut PyContext,
    code_obj: PyObjectRef,
    scope: Scope,
    defaults: PyObjectRef,
    r: PyObjectRef,
    out: Conversion<PyRef<PyFunction>>,
)
    requires
        old(ctx).wf(),
        call_ensures(PyContext::new_function, (ctx, code_obj, scope, defaults), r),
        call_ensures(
            <PyRef<PyFunction> as TryFromObject>::try_from_object,
            (final(ctx), r, None),
            out,
        ),
    ensures
        out is Ready && out->Ready_0 is Ok && out->Ready_0->Ok_0@ == r,
{
    broadcast use {lemma_derived_valid, lemma_typed};

    law_typed_conversion(*final(ctx), r, None, out);
}

/// What `new_bound_method` makes is converted to a reference to it by the type of its
/// payload.
pub proof fn law_made_bound_method_is_converted(
    ctx: &mut PyContext,
    function: PyObjectRef,
    object: PyObjectRef,
    r: PyObjectRef,
    out: Conversion<PyRef<PyMethod>>,
)
    requires
        old(ctx).wf(),
        call_ensures(PyContext::new_bound_method, (ctx, function, object), r),
        call_ensures(
            <PyRef<PyMethod> as TryFromObject>::try_from_object,
            (final(ctx), r, None),
            out,
        ),
    ensures
        out is Ready && out->Ready_0 is Ok && out->Ready_0->Ok_0@ == r,
{
    broadcast use {lemma_derived_valid, lemma_typed};

    law_typed_conversion(*final(ctx), r, None, out);
}

/// A class that was made is converted to the reference to it.
pub proof fn law_made_class_is_converted(
    ctx: &mut PyContext,
    name: &str,
    base: PyClassRef,
    r: PyClassRef,
    out: Conversion<PyRef<PyClass>>,
)
    requires
        old(ctx).wf(),
        call_ensures(PyContext::new_class, (ctx, name, base), r),
        call_ensures(
            <PyRef<PyClass> as TryFromObject>::try_from_object,
            (final(ctx), r@, None),
            out,
        ),
    ensures
        out == Conversion::<PyRef<PyClass>>::Ready(Ok(r)),
{
    broadcast use {lemma_derived_valid, lemma_typed, lemma_same_ref};

    law_typed_conversion(*final(ctx), r@, None, out);
}

/// The built-in values are converted to references to them by the types of their
/// payloads; `True` and `False` are so as numbers.
pub proof fn law_builtin_values_are_converted(
    ctx: PyContext,
    none: Conversion<PyRef<PyNone>>,
    ellipsis: Conversion<PyRef<PyEllipsis>>,
    not_implemented: Conversion<PyRef<PyNotImplemented>>,
    yes: Conversion<PyRef<PyInt>>,
    no: Conversion<PyRef<PyInt>>,
)
    requires
        ctx.wf(),
        call_ensures(
            <PyRef<PyNone> as TryFromObject>::try_from_object,
            (&ctx, ctx.none@, None),
            none,
        ),
        call_ensures(
            <PyRef<PyEllipsis> as TryFromObject>::try_from_object,
            (&ctx, ctx.ellipsis@, None),
            ellipsis,
        ),
        call_ensures(
            <PyRef<PyNotImplemented> as TryFromObject>::try_from_object,
            (&ctx, ctx.not_implemented@, None),
            not_implemented,
        ),
        call_ensures(
            <PyRef<PyInt> as TryFromObject>::try_from_object,
            (&ctx, ctx.true_value@, None),
            yes,
        ),
        call_ensures(
            <PyRef<PyInt> as TryFromObject>::try_from_object,
            (&ctx, ctx.false_value@, None),
            no,
        ),
    ensures
        none == Conversion::<PyRef<PyNone>>::Ready(Ok(ctx.none)),
        ellipsis == Conversion::<PyRef<PyEllipsis>>::Ready(Ok(ctx.ellipsis)),
        not_implemented == Conversion::<PyRef<PyNotImplemented>>::Ready(Ok(ctx.not_implemented)),
        yes == Conversion::<PyRef<PyInt>>::Ready(Ok(ctx.true_value)),
        no == Conversion::<PyRef<PyInt>>::Ready(Ok(ctx.false_value)),
{
    broadcast use {lemma_derived_valid, lemma_typed, lemma_same_ref};

    assert(class_mro(ctx.heap@, ctx.bool_type@)[0] == ctx.int_type);
}

/// What iterating over an object needs is its method `__iter__`. The iterator is
/// what calling that method without arguments gives; an exception that comes of
/// getting or of calling it is passed on.
pub proof fn law_iteration_begins<T: TryFromObject>(
    ctx: PyContext,
    obj: PyObjectRef,
    needed: Option<String>,
    method: PyResult,
    out: Conversion<PyIterable<T>>,
    call: VmCall,
    called: PyResult,
    it: PyResult<PyIterator<T>>,
    next: VmCall,
)
    requires
        call_ensures(<PyIterable<T> as TryFromObject>::needed_method, (&ctx, &obj), needed),
        call_ensures(
            <PyIterable<T> as TryFromObject>::try_from_object,
            (&ctx, obj, Some(method)),
            out,
        ),
        method is Ok && out is Ready && out->Ready_0 is Ok ==> {
            &&& call_ensures(PyIterable::<T>::iter_call, (&out->Ready_0->Ok_0,), call)
            &&& call_ensures(PyIterable::<T>::iter, (&out->Ready_0->Ok_0, called), it)
        },
        it is Ok ==> call_ensures(PyIterator::<T>::next_call, (&it->Ok_0,), next),
    ensures
        needed is Some && needed->0@ == "__iter__"@,
        method is Err ==> out == Conversion::<PyIterable<T>>::Ready(Err(method->Err_0)),
        method is Ok ==> {
            &&& out is Ready && out->Ready_0 is Ok
            &&& call is Invoke
            &&& call->func == method->Ok_0
            &&& call->Invoke_args.args@.len() == 0
            &&& call->Invoke_args.kwargs@.len() == 0
            &&& called is Err ==> it == PyResult::<PyIterator<T>>::Err(called->Err_0)
            &&& called is Ok ==> {
                &&& it is Ok
                &&& next is CallMethod
                &&& next->obj == called->Ok_0
                &&& next->name@ == "__next__"@
                &&& next->CallMethod_args@.len() == 0
            }
        },
{
    if method is Ok {
        PyIterable::<T>::lemma_with_method(method->Ok_0);
    }
}

/// The next item is what the next object is converted to. The iteration ends
/// exactly if the call raised an exception whose type is `StopIteration` or lists
/// it; any other exception is passed on.
pub proof fn law_iteration_goes_on<T: TryFromObject>(
    it: PyIterator<T>,
    ctx: PyContext,
    called: PyResult,
    method: Option<PyResult>,
    out: Option<Conversion<T>>,
    converted: Conversion<T>,
)
    requires
        call_ensures(PyIterator::<T>::next, (&it, &ctx, called, method), out),
        called is Ok ==> call_ensures(T::try_from_object, (&ctx, called->Ok_0, method), converted),
    ensures
        called is Ok ==> out == Some(converted),
        called is Err && listed(
            ctx.heap@,
            ctx.heap@[called->Err_0@ as int].typ,
            ctx.exceptions.stop_iteration@,
        ) ==> out is None,
        called is Err && !listed(
            ctx.heap@,
            ctx.heap@[called->Err_0@ as int].typ,
            ctx.exceptions.stop_iteration@,
        ) ==> out == Some(Conversion::<T>::Ready(Err(called->Err_0))),
{
    if called is Err {
        lemma_listed(
            ctx.heap@,
            ctx.heap@[called->Err_0@ as int].typ,
            ctx.exceptions.stop_iteration@,
        );
    }
}

/// Which of the built-in exceptions end an iteration: `StopIteration` does,
/// `TypeError`, `Exception` and `BaseException` do not.
pub proof fn law_exceptions_that_end_iteration<T: TryFromObject>(
    it: PyIterator<T>,
    ctx: PyContext,
    e: PyObjectRef,
    method: Option<PyResult>,
    out: Option<Conversion<T>>,
)
    requires
        ctx.wf(),
        call_ensures(PyIterator::<T>::next, (&it, &ctx, Err(e), method), out),
    ensures
        ctx.heap@[e@ as int].typ == ctx.exceptions.stop_iteration@ ==> out is None,
        ctx.heap@[e@ as int].typ == ctx.exceptions.type_error@ ==> out == Some(
            Conversion::<T>::Ready(Err(e)),
        ),
        ctx.heap@[e@ as int].typ == ctx.exceptions.exception_type@ ==> out == Some(
            Conversion::<T>::Ready(Err(e)),
        ),
        ctx.heap@[e@ as int].typ == ctx.exceptions.base_exception_type@ ==> out == Some(
            Conversion::<T>::Ready(Err(e)),
        ),
{
    let zoo = ctx.exceptions;
    law_builtin_types_carry(ctx);
    reveal_strlit("StopIteration");
    reveal_strlit("TypeError");
    reveal_strlit("Exception");
    reveal_strlit("BaseException");
    reveal_strlit("object");
    assert("StopIteration"@.len() == 13);
    assert("StopIteration"@[0] == 'S');
    assert("BaseException"@[0] == 'B');
    assert("TypeError"@.len() == 9);
    assert("Exception"@.len() == 9);
    assert("object"@.len() == 6);
}

/// An object is printed by the name that it carries, if it is a module or a class
/// whose own class has the name `type`, and by the name of its class otherwise.
pub proof fn law_object_is_printed(o: PyObject<Payload>, heap: PyHeap, text: String)
    requires
        call_ensures(PyObject::<Payload>::display, (&o, &heap), text),
    ensures
        match o.payload {
            Payload::Module(m) => text@ == "module '"@ + m.name@ + "'"@,
            Payload::Class(c) => if heap@[o.typ@ as int].payload->Class_name == "type"@ {
                text@ == "type object '"@ + c.name@ + "'"@
            } else {
                text@ == "'"@ + heap@[o.typ@ as int].payload->Class_name + "' object"@
            },
            _ => text@ == "'"@ + heap@[o.typ@ as int].payload->Class_name + "' object"@,
        },
{
}

/// Bytes-like are the objects whose class has one of three names, and those of
/// them are writable whose class has the name `bytes`.
pub proof fn law_buffers(obj: PyObjectRef, heap: PyHeap, b: bool, readonly: bool)
    ensures
        call_ensures(is_bytes_like, (&obj, &heap), b) ==> b == (
        heap@[heap@[obj@ as int].typ@ as int].payload->Class_name == "bytes"@
            || heap@[heap@[obj@ as int].typ@ as int].payload->Class_name == "bytearray"@
            || heap@[heap@[obj@ as int].typ@ as int].payload->Class_name == "memoryview"@),
        call_ensures(<PyObjectRef as BufferProtocol>::readonly, (&obj, &heap), readonly)
            ==> readonly == (heap@[heap@[obj@ as int].typ@ as int].payload->Class_name
            != "bytes"@),
{
}

} // verus!
