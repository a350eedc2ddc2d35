//! Conversions, iteration, and how objects are described.
use pyobject::context::PyContext;
use pyobject::convert::{
    Conversion, IntoPyObject, MismatchKind, MismatchStep, TryFromObject, TryIntoRef, TypeMismatch,
};
use pyobject::describe::{is_bytes_like, BufferProtocol};
use pyobject::iter::{PyIterable, PyIterator, VmCall};
use pyobject::object::{PyObject, PyObjectRef, PyRef, PyResult, SameObject, TypeProtocol};
use pyobject::payload::{
    PyEllipsis, PyInt, PyIteratorValue, PyModule, PyNotImplemented, PyObjectPayload, PyString,
};
use pyobject::value::PyValue;

fn mismatch<T>(c: Conversion<T>) -> TypeMismatch {
    match c {
        Conversion::Mismatch(m) => m,
        Conversion::Ready(_) => panic!("no mismatch"),
    }
}

fn ready<T>(c: Conversion<T>) -> PyResult<T> {
    match c {
        Conversion::Ready(r) => r,
        Conversion::Mismatch(_) => panic!("a mismatch"),
    }
}

/// The message after both questions of a mismatch have been answered.
fn raised(m: TypeMismatch, first: &str, second: &str) -> String {
    match m.answer(Ok(first.to_string())) {
        MismatchStep::Ask(next) => match next.answer(Ok(second.to_string())) {
            MismatchStep::RaiseTypeError(msg) => msg,
            _ => panic!("no message"),
        },
        _ => panic!("no second question"),
    }
}

#[test]
fn an_object_is_converted_to_a_reference_of_its_type() {
    let mut ctx = PyContext::new();
    let five = ctx.new_int(5);
    assert!(<PyRef<PyInt> as TryFromObject>::needed_method(&ctx, &five).is_none());
    let r = ready(<PyRef<PyInt> as TryFromObject>::try_from_object(&ctx, five, None)).unwrap();
    assert!(r.is(&five));
    let b = ctx.new_bool(true);
    let r = ready(<PyRef<PyInt> as TryFromObject>::try_from_object(&ctx, b, None)).unwrap();
    assert!(r.is(&ctx.true_value));
}

#[test]
fn an_object_of_another_type_is_a_mismatch() {
    let mut ctx = PyContext::new();
    let s = ctx.new_str("a".to_string());
    let m = mismatch(<PyRef<PyInt> as TryFromObject>::try_from_object(&ctx, s, None));
    assert_eq!(m.kind, MismatchKind::NotExpected);
    assert!(m.asks().is(&ctx.int_type()));
    assert!(m.second.is(&ctx.str_type()));
    let msg = raised(m, "<class 'int'>", "<class 'str'>");
    assert_eq!(msg, "Expected type <class 'int'>, not <class 'str'>");
}

#[test]
fn the_second_type_is_asked_for_after_the_first() {
    let mut ctx = PyContext::new();
    let s = ctx.new_str("a".to_string());
    let m = mismatch(<PyRef<PyInt> as TryFromObject>::try_from_object(&ctx, s, None));
    match m.answer(Ok("int".to_string())) {
        MismatchStep::Ask(next) => assert!(next.asks().is(&ctx.str_type())),
        _ => panic!("no second question"),
    }
}

#[test]
fn an_exception_while_asking_is_raised_instead() {
    let mut ctx = PyContext::new();
    let s = ctx.new_str("a".to_string());
    let e = ctx.new_object();
    let first = mismatch(<PyRef<PyInt> as TryFromObject>::try_from_object(&ctx, s, None));
    match first.answer(Err(e)) {
        MismatchStep::Raise(r) => assert!(r.is(&e)),
        _ => panic!("another step"),
    }
    let m = mismatch(<PyRef<PyInt> as TryFromObject>::try_from_object(&ctx, s, None));
    match m.answer(Ok("int".to_string())) {
        MismatchStep::Ask(next) => match next.answer(Err(e)) {
            MismatchStep::Raise(r) => assert!(r.is(&e)),
            _ => panic!("another step"),
        },
        _ => panic!("no second question"),
    }
}

#[test]
fn an_instance_without_the_payload_is_a_mismatch() {
    let mut ctx = PyContext::new();
    let hollow = ctx.new_instance(ctx.int_type(), None);
    assert!(!ctx.heap.get(&hollow).payload_is::<PyInt>());
    let m = mismatch(<PyRef<PyInt> as TryFromObject>::try_from_object(&ctx, hollow, None));
    assert_eq!(m.kind, MismatchKind::NotExpected);
    assert!(m.first.is(&ctx.int_type()));
    assert!(m.second.is(&ctx.int_type()));
    mismatch(<Option<PyRef<PyInt>> as TryFromObject>::try_from_object(&ctx, hollow, None));
    mismatch(TryIntoRef::<PyInt>::try_into_ref(hollow, &ctx));
    let it = iterator_of::<PyRef<PyInt>>(&mut ctx);
    mismatch(it.next(&ctx, Ok(hollow), None).unwrap());
}

#[test]
fn an_object_of_a_subtype_with_the_payload_is_converted() {
    let mut ctx = PyContext::new();
    let small = ctx.new_class("Small", ctx.int_type());
    let made = ready(PyInt::new(4).into_ref_with_type(&mut ctx, small)).unwrap();
    let back = ready(<PyRef<PyInt> as TryFromObject>::try_from_object(
        &ctx,
        made.into_object(),
        None,
    ))
    .unwrap();
    assert!(back.is(&made));
    assert_eq!(back.deref(&ctx.heap).value, num_bigint::BigInt::from(4));
}

#[test]
fn only_typed_references_ask_for_the_class() {
    let mut ctx = PyContext::new();
    let not_a_class = ctx.new_int(1);
    let text = PyString { value: String::new() };
    let odd = PyObject::new(text, not_a_class, &mut ctx.heap);
    assert!(!<PyRef<PyString> as TryFromObject>::is_askable(&ctx, &odd));
    assert!(!<Option<PyRef<PyString>> as TryFromObject>::is_askable(&ctx, &odd));
    assert!(<PyObjectRef as TryFromObject>::is_askable(&ctx, &odd));
    assert!(<PyIterable<PyObjectRef> as TryFromObject>::is_askable(&ctx, &odd));
    assert!(<PyRef<PyString> as TryFromObject>::is_askable(&ctx, &not_a_class));
    let none = ctx.none();
    assert!(<Option<PyRef<PyString>> as TryFromObject>::is_askable(&ctx, &none));
}

#[test]
fn none_is_no_value() {
    let mut ctx = PyContext::new();
    let none = ctx.none();
    let r = ready(<Option<PyRef<PyInt>> as TryFromObject>::try_from_object(&ctx, none, None));
    assert!(r.unwrap().is_none());
    let five = ctx.new_int(5);
    let r = ready(<Option<PyRef<PyInt>> as TryFromObject>::try_from_object(&ctx, five, None));
    assert!(r.unwrap().unwrap().is(&five));
    let s = ctx.new_str("a".to_string());
    let m = mismatch(<Option<PyRef<PyInt>> as TryFromObject>::try_from_object(&ctx, s, None));
    assert!(m.first.is(&ctx.int_type()));
}

#[test]
fn any_object_is_converted_to_itself() {
    let mut ctx = PyContext::new();
    let s = ctx.new_str("a".to_string());
    let r = ready(<PyObjectRef as TryFromObject>::try_from_object(&ctx, s, None));
    assert_eq!(r.unwrap(), s);
}

#[test]
fn references_are_coerced() {
    let mut ctx = PyContext::new();
    let five = ctx.new_int(5);
    let r: PyRef<PyInt> = ready(five.try_into_ref(&ctx)).unwrap();
    let same: PyRef<PyInt> = ready(r.try_into_ref(&ctx)).unwrap();
    assert!(same.is(&five));
    let m = mismatch(TryIntoRef::<PyString>::try_into_ref(five, &ctx));
    assert!(m.first.is(&ctx.str_type()));
}

#[test]
fn a_value_becomes_an_object_and_comes_back() {
    let mut ctx = PyContext::new();
    let r = PyInt::new(7).into_ref(&mut ctx);
    assert!(r.typ(&ctx.heap).is(&ctx.int_type()));
    let back = ready(<PyRef<PyInt> as TryFromObject>::try_from_object(
        &ctx,
        *r.as_object(),
        None,
    ));
    assert!(back.unwrap().is(&r));
    assert_eq!(r.deref(&ctx.heap).value, num_bigint::BigInt::from(7));
}

#[test]
fn a_typed_reference_survives_later_changes() {
    let mut ctx = PyContext::new();
    let r = PyString { value: "k".to_string() }.into_ref(&mut ctx);
    let d = ctx.new_dict();
    ctx.set_item(&d, "k", r.into_object());
    ctx.set_attr(&r, "d", d);
    assert_eq!(r.deref(&ctx.heap).value, "k");
}

#[test]
fn a_value_takes_a_subtype() {
    let mut ctx = PyContext::new();
    let small = ctx.new_class("Small", ctx.int_type());
    let r = ready(PyInt::new(1).into_ref_with_type(&mut ctx, small)).unwrap();
    assert!(r.typ(&ctx.heap).is(&small));
    let own = ctx.int_type();
    let r = ready(PyInt::new(1).into_ref_with_type(&mut ctx, own)).unwrap();
    assert!(r.typ(&ctx.heap).is(&own));
}

#[test]
fn a_value_refuses_a_type_that_is_no_subtype() {
    let mut ctx = PyContext::new();
    let other = ctx.str_type();
    let m = mismatch(PyInt::new(1).into_ref_with_type(&mut ctx, other));
    assert_eq!(m.kind, MismatchKind::NotSubtype);
    assert!(m.first.is(&ctx.str_type()));
    assert!(m.second.is(&ctx.int_type()));
    assert_eq!(raised(m, "str", "int"), "str is not a subtype of int");
}

#[test]
fn results_become_objects() {
    let mut ctx = PyContext::new();
    let five = ctx.new_int(5);
    assert_eq!(five.into_pyobject(&mut ctx), Ok(five));
    let flag = ctx.true_value;
    assert_eq!(flag.into_pyobject(&mut ctx), Ok(ctx.new_bool(true)));
    let err: PyResult<PyObjectRef> = Err(five);
    assert_eq!(err.into_pyobject(&mut ctx), Err(five));
    let made = PyString { value: "v".to_string() }.into_pyobject(&mut ctx).unwrap();
    assert!(made.typ(&ctx.heap).is(&ctx.str_type()));
    let nested: PyResult<PyInt> = Ok(PyInt::new(3));
    let made = nested.into_pyobject(&mut ctx).unwrap();
    assert!(made.typ(&ctx.heap).is(&ctx.int_type()));
}

#[test]
fn payloads_know_their_classes() {
    let mut ctx = PyContext::new();
    assert!(PyEllipsis::class(&ctx).is(&ctx.ellipsis_type));
    assert!(PyNotImplemented::class(&ctx).is(&ctx.not_implemented().type_pyref(&ctx.heap)));
    assert!(PyIteratorValue::class(&ctx).is(&ctx.iter_type()));
    let list = ctx.new_list(vec![]);
    let it = PyIteratorValue { position: 0, iterated_obj: list }.into_ref(&mut ctx);
    assert!(it.typ(&ctx.heap).is(&ctx.iter_type()));
    assert_eq!(it.deref(&ctx.heap).iterated_obj, list);
}

#[test]
fn an_iterator_is_moved() {
    let mut ctx = PyContext::new();
    let list = ctx.new_list(vec![]);
    let it = PyIteratorValue { position: 0, iterated_obj: list }.into_ref(&mut ctx);
    let other = PyIteratorValue { position: 7, iterated_obj: list }.into_ref(&mut ctx);
    ctx.heap.set_position(&it, 3);
    assert_eq!(it.deref(&ctx.heap).position, 3);
    assert_eq!(it.deref(&ctx.heap).iterated_obj, list);
    assert_eq!(other.deref(&ctx.heap).position, 7);
    assert!(it.typ(&ctx.heap).is(&ctx.iter_type()));
    let back = ready(<PyRef<PyIteratorValue> as TryFromObject>::try_from_object(
        &ctx,
        it.into_object(),
        None,
    ));
    assert!(back.unwrap().is(&it));
}

#[test]
fn a_payload_is_got_back_from_what_forgot_its_type() {
    let p = PyString { value: "p".to_string() }.into_payload();
    assert_eq!(PyString::downcast_ref(&p).unwrap().value, "p");
    assert!(PyInt::downcast_ref(&p).is_none());
}

#[test]
fn iteration_asks_for_the_method_and_calls_it() {
    let mut ctx = PyContext::new();
    let list = ctx.new_list(vec![]);
    let needed = <PyIterable<PyObjectRef> as TryFromObject>::needed_method(&ctx, &list);
    assert_eq!(needed, Some("__iter__".to_string()));
    let method = ctx.new_object();
    let iterable = ready(<PyIterable<PyObjectRef> as TryFromObject>::try_from_object(
        &ctx,
        list,
        Some(Ok(method)),
    ))
    .unwrap();
    match iterable.iter_call() {
        VmCall::Invoke { func, args } => {
            assert!(func.is(&method));
            assert!(args.args.is_empty());
            assert!(args.kwargs.is_empty());
        }
        VmCall::CallMethod { .. } => panic!("a method call"),
    }
    let it = ctx.new_object();
    let iterator = iterable.iter(Ok(it)).unwrap();
    match iterator.next_call() {
        VmCall::CallMethod { obj, name, args } => {
            assert!(obj.is(&it));
            assert_eq!(name, "__next__");
            assert!(args.is_empty());
        }
        VmCall::Invoke { .. } => panic!("a plain call"),
    }
    assert_eq!(iterable.iter(Err(list)).err(), Some(list));
}

#[test]
fn an_object_without_the_method_is_not_iterable() {
    let mut ctx = PyContext::new();
    let five = ctx.new_int(5);
    let e = ctx.new_object();
    let r = ready(<PyIterable<PyObjectRef> as TryFromObject>::try_from_object(
        &ctx,
        five,
        Some(Err(e)),
    ));
    assert_eq!(r.err(), Some(e));
}

fn iterator_of<T: TryFromObject>(ctx: &mut PyContext) -> PyIterator<T> {
    let object = ctx.new_object();
    let iterable = ready(<PyIterable<T> as TryFromObject>::try_from_object(
        ctx,
        object,
        Some(Ok(object)),
    ))
    .unwrap();
    iterable.iter(Ok(object)).unwrap()
}

#[test]
fn iteration_ends_with_stop_iteration() {
    let mut ctx = PyContext::new();
    let it = iterator_of::<PyRef<PyInt>>(&mut ctx);
    let five = ctx.new_int(5);
    let item = ready(it.next(&ctx, Ok(five), None).unwrap()).unwrap();
    assert!(item.is(&five));
    let stop = ctx.new_instance(ctx.exceptions.stop_iteration, None);
    assert!(it.next(&ctx, Err(stop), None).is_none());
    let own_stop = ctx.new_class("MyStop", ctx.exceptions.stop_iteration);
    let stop = ctx.new_instance(own_stop, None);
    assert!(it.next(&ctx, Err(stop), None).is_none());
    let other = ctx.new_instance(ctx.exceptions.type_error, None);
    let item = ready(it.next(&ctx, Err(other), None).unwrap());
    assert_eq!(item.err().unwrap(), other);
    let s = ctx.new_str("a".to_string());
    let m = mismatch(it.next(&ctx, Ok(s), None).unwrap());
    assert_eq!(m.kind, MismatchKind::NotExpected);
}

#[test]
fn objects_are_printed() {
    let mut ctx = PyContext::new();
    let shown = |ctx: &PyContext, r: &PyObjectRef| ctx.heap.get(r).display(&ctx.heap);
    let five = ctx.new_int(5);
    let d = ctx.new_dict();
    let m = ctx.new_module("sys", d);
    assert_eq!(shown(&ctx, &five), "'int' object");
    assert_eq!(shown(&ctx, &m), "module 'sys'");
    assert_eq!(shown(&ctx, ctx.int_type().as_object()), "type object 'int'");
    assert_eq!(shown(&ctx, &ctx.none()), "'NoneType' object");
}

#[test]
fn a_module_is_printed_whatever_its_type() {
    let mut ctx = PyContext::new();
    let d = ctx.new_dict();
    let m = PyModule { name: "odd".to_string(), dict: d };
    let r = PyObject::new(m, d, &mut ctx.heap);
    assert_eq!(ctx.heap.get(&r).display(&ctx.heap), "module 'odd'");
}

#[test]
fn a_class_of_another_metaclass_is_printed_as_an_object() {
    let mut ctx = PyContext::new();
    let meta = ctx.new_class("Meta", ctx.type_type());
    let base = ctx.object();
    let class = pyobject::context::create_type("C", &meta, &base, &mut ctx.heap);
    let shown = ctx.heap.get(class.as_object()).display(&ctx.heap);
    assert_eq!(shown, "'Meta' object");
}

#[test]
fn bytes_like_objects_can_be_read_only() {
    let mut ctx = PyContext::new();
    let b = ctx.new_bytes(vec![1]);
    let a = ctx.new_bytearray(vec![1]);
    let class = ctx.memoryview_type().into_object();
    let v = PyObject::new(PyString { value: String::new() }, class, &mut ctx.heap);
    assert!(!b.readonly(&ctx.heap));
    assert!(a.readonly(&ctx.heap));
    assert!(v.readonly(&ctx.heap));
    assert!(is_bytes_like(&b, &ctx.heap));
    assert!(is_bytes_like(&a, &ctx.heap));
    assert!(is_bytes_like(&v, &ctx.heap));
    assert!(!is_bytes_like(&ctx.none(), &ctx.heap));
}
