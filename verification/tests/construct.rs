//! The constructors of objects.
use num_bigint::BigInt;
use num_complex::Complex64;
use pyobject::bytecode::CodeObject;
use pyobject::context::PyContext;
use pyobject::frame::{Frame, Scope};
use pyobject::object::{IdProtocol, PyClassRef, PyObject, PyObjectRef, SameObject, TypeProtocol};
use pyobject::payload::{
    PyAttributes, PyBuiltinFunction, PyByteArray, PyBytes, PyClass, PyCode, PyComplex, PyDict,
    PyFloat, PyFunction, PyInstance, PyInt, PyList, PyMethod, PyModule, PyNativeFunc,
    PyObjectPayload, PyReadOnlyProperty, PySet, PyString, PyTuple,
};
use pyobject::strmap::StrMap;

fn has_type(ctx: &PyContext, obj: &PyObjectRef, class: &PyClassRef) -> bool {
    obj.typ(&ctx.heap).is(class) && obj.type_pyref(&ctx.heap).is(class)
}

fn sample_code() -> CodeObject {
    CodeObject {
        instructions: vec![1, 2, 3],
        source_path: "a.py".to_string(),
        first_line_number: 7,
        obj_name: "f".to_string(),
    }
}

#[test]
fn int_objects_hold_their_number() {
    let mut ctx = PyContext::new();
    let five = ctx.new_int(5);
    let big = ctx.new_int(BigInt::from(1u64) << 100);
    let minus = ctx.new_int(-3i64);
    assert!(has_type(&ctx, &five, &ctx.int_type()));
    let value = |r: &PyObjectRef| ctx.heap.get(r).payload::<PyInt>().unwrap().value.clone();
    assert_eq!(value(&five), BigInt::from(5));
    assert_eq!(value(&big), BigInt::from(1u64) << 100);
    assert_eq!(value(&minus), BigInt::from(-3));
}

#[test]
fn each_int_object_is_new() {
    let mut ctx = PyContext::new();
    let a = ctx.new_int(1);
    let b = ctx.new_int(1);
    assert!(!a.is(&b));
    assert!(a.is(&a.clone()));
    assert_ne!(a.get_id(), b.get_id());
}

#[test]
fn float_objects_hold_their_bits() {
    let mut ctx = PyContext::new();
    let r = ctx.new_float(1.5f64.to_bits());
    assert!(has_type(&ctx, &r, &ctx.float_type()));
    let bits = ctx.heap.get(&r).payload::<PyFloat>().unwrap().bits;
    assert_eq!(f64::from_bits(bits), 1.5);
}

#[test]
fn complex_objects_hold_their_number() {
    let mut ctx = PyContext::new();
    let r = ctx.new_complex(Complex64::new(1.0, -2.0));
    assert!(has_type(&ctx, &r, &ctx.complex_type()));
    let value = ctx.heap.get(&r).payload::<PyComplex>().unwrap().value;
    assert_eq!(value, Complex64::new(1.0, -2.0));
}

#[test]
fn text_and_bytes_are_kept() {
    let mut ctx = PyContext::new();
    let s = ctx.new_str("h\u{e9}".to_string());
    let b = ctx.new_bytes(vec![0, 255]);
    let a = ctx.new_bytearray(vec![]);
    assert!(has_type(&ctx, &s, &ctx.str_type()));
    assert!(has_type(&ctx, &b, &ctx.bytes_type()));
    assert!(has_type(&ctx, &a, &ctx.bytearray_type()));
    assert_eq!(ctx.heap.get(&s).payload::<PyString>().unwrap().value, "h\u{e9}");
    assert_eq!(ctx.heap.get(&b).payload::<PyBytes>().unwrap().value, vec![0, 255]);
    assert!(ctx.heap.get(&a).payload::<PyByteArray>().unwrap().value.is_empty());
}

#[test]
fn sequences_keep_their_elements() {
    let mut ctx = PyContext::new();
    let one = ctx.new_int(1);
    let none = ctx.none();
    let t = ctx.new_tuple(vec![one, none, one]);
    let l = ctx.new_list(vec![none]);
    let s = ctx.new_set();
    assert!(has_type(&ctx, &t, &ctx.tuple_type()));
    assert!(has_type(&ctx, &l, &ctx.list_type()));
    assert!(has_type(&ctx, &s, &ctx.set_type()));
    assert_eq!(ctx.heap.get(&t).payload::<PyTuple>().unwrap().elements, vec![one, none, one]);
    assert_eq!(ctx.heap.get(&l).payload::<PyList>().unwrap().elements, vec![none]);
    assert!(ctx.heap.get(&s).payload::<PySet>().unwrap().elements.is_empty());
}

#[test]
fn new_dicts_are_empty() {
    let mut ctx = PyContext::new();
    let d = ctx.new_dict();
    assert!(has_type(&ctx, &d, &ctx.dict_type()));
    let dict = ctx.heap.get(&d).payload::<PyDict>().unwrap();
    assert!(!dict.entries.contains_key(""));
    assert!(dict.entries.values().is_empty());
}

#[test]
fn scopes_start_without_locals() {
    let mut ctx = PyContext::new();
    let scope = ctx.new_scope();
    assert!(scope.locals.is_empty());
    assert!(has_type(&ctx, &scope.globals, &ctx.dict_type()));
    let inner = Scope::new(Some(scope.globals), scope.globals);
    assert_eq!(inner.locals, vec![scope.globals]);
}

#[test]
fn modules_keep_their_name_and_variables() {
    let mut ctx = PyContext::new();
    let d = ctx.new_dict();
    let m = ctx.new_module("os", d);
    assert!(has_type(&ctx, &m, &ctx.module_type()));
    let module = ctx.heap.get(&m).payload::<PyModule>().unwrap();
    assert_eq!(module.name, "os");
    assert_eq!(module.dict, d);
}

#[test]
fn native_functions_keep_their_place() {
    let mut ctx = PyContext::new();
    let f = ctx.new_rustfunc(PyNativeFunc { index: 3 });
    assert!(has_type(&ctx, &f, &ctx.builtin_function_or_method_type()));
    let value = ctx.heap.get(&f).payload::<PyBuiltinFunction>().unwrap().value;
    assert_eq!(value, PyNativeFunc { index: 3 });
}

#[test]
fn properties_are_read_only_and_have_a_getter() {
    let mut ctx = PyContext::new();
    let p = ctx.new_property(PyNativeFunc { index: 9 });
    assert!(has_type(&ctx, &p, &ctx.readonly_property_type()));
    let getter = ctx.heap.get(&p).payload::<PyReadOnlyProperty>().unwrap().getter;
    assert!(has_type(&ctx, &getter, &ctx.builtin_function_or_method_type()));
    let value = ctx.heap.get(&getter).payload::<PyBuiltinFunction>().unwrap().value;
    assert_eq!(value.index, 9);
}

#[test]
fn code_functions_and_frames_keep_their_parts() {
    let mut ctx = PyContext::new();
    let code = ctx.new_code_object(sample_code());
    assert!(has_type(&ctx, &code, &ctx.code_type()));
    assert_eq!(ctx.heap.get(&code).payload::<PyCode>().unwrap().code.obj_name, "f");

    let scope = ctx.new_scope();
    let globals = scope.globals;
    let frame = ctx.new_frame(code, scope);
    assert!(has_type(&ctx, &frame, &ctx.frame_type()));
    let kept = ctx.heap.get(&frame).payload::<Frame>().unwrap();
    assert_eq!(kept.code, code);
    assert_eq!(kept.scope.globals, globals);

    let defaults = ctx.none();
    let f = ctx.new_function(code, Scope::new(None, globals), defaults);
    assert!(has_type(&ctx, &f, &ctx.function_type()));
    let kept = ctx.heap.get(&f).payload::<PyFunction>().unwrap();
    assert_eq!(kept.code, code);
    assert_eq!(kept.defaults, defaults);
    assert_eq!(kept.scope.globals, globals);
}

#[test]
fn bound_methods_keep_object_and_function_apart() {
    let mut ctx = PyContext::new();
    let f = ctx.new_rustfunc(PyNativeFunc { index: 0 });
    let o = ctx.new_object();
    let m = ctx.new_bound_method(f, o);
    assert!(has_type(&ctx, &m, &ctx.bound_method_type()));
    let method = ctx.heap.get(&m).payload::<PyMethod>().unwrap();
    assert_eq!(method.function, f);
    assert_eq!(method.object, o);
}

#[test]
fn instances_have_the_attributes_they_are_made_with() {
    let mut ctx = PyContext::new();
    let one = ctx.new_int(1);
    let mut attributes = PyAttributes::new();
    attributes.insert("x".to_string(), one);
    let with = ctx.new_instance(ctx.object(), Some(attributes));
    let without = ctx.new_instance(ctx.object(), None);
    let plain = ctx.new_object();
    assert_eq!(ctx.heap.get(&with).dict.as_ref().unwrap().get("x"), Some(&one));
    assert!(ctx.heap.get(&without).dict.as_ref().unwrap().get("x").is_none());
    assert!(has_type(&ctx, &plain, &ctx.object()));
    assert!(ctx.heap.get(&plain).payload_is::<PyInstance>());
    assert!(ctx.heap.get(&plain).dict.as_ref().unwrap().values().is_empty());
}

#[test]
fn objects_with_and_without_attributes() {
    let mut ctx = PyContext::new();
    let class = ctx.str_type().into_object();
    let text = || PyString { value: "a".to_string() };
    let with = PyObject::new(text(), class, &mut ctx.heap);
    let without = PyObject::new_without_dict(text(), class, &mut ctx.heap);
    assert!(ctx.heap.get(&with).dict.is_some());
    assert!(ctx.heap.get(&without).dict.is_none());
    let made = PyObject { typ: class, dict: None, payload: text() }.into_ref(&mut ctx.heap);
    assert!(!made.is(&without));
    assert!(made.typ(&ctx.heap).is(&ctx.str_type()));
}

#[test]
fn a_payload_is_of_one_type_only() {
    let mut ctx = PyContext::new();
    let s = ctx.new_str("1".to_string());
    let object = ctx.heap.get(&s);
    assert!(object.payload_is::<PyString>());
    assert!(!object.payload_is::<PyInt>());
    assert!(object.payload::<PyInt>().is_none());
    assert!(object.type_ref(&ctx.heap).is(&ctx.str_type()));
}

#[test]
fn the_class_plays_no_part_in_the_type_of_a_payload() {
    let mut ctx = PyContext::new();
    let class = ctx.float_type().into_object();
    let odd = PyObject::new(PyInt::new(1), class, &mut ctx.heap);
    assert!(ctx.heap.get(&odd).payload_is::<PyInt>());
    assert!(!ctx.heap.get(&odd).payload_is::<PyFloat>());
    assert_eq!(ctx.heap.get(&odd).payload::<PyInt>().unwrap().value, BigInt::from(1));
    let hollow = ctx.new_instance(ctx.float_type(), None);
    assert!(!ctx.heap.get(&hollow).payload_is::<PyFloat>());
}

fn same<A: IdProtocol, B: IdProtocol>(a: &A, b: &B) -> bool {
    a.is(b)
}

#[test]
fn anything_with_an_id_can_be_compared() {
    let ctx = PyContext::new();
    assert!(same(&ctx.none, &ctx.none()));
    assert!(same(&ctx.none(), &ctx.none));
    assert!(!same(&ctx.none, &ctx.true_value));
}

#[test]
fn payloads_fit_the_heap_that_holds_what_they_refer_to() {
    let small = PyContext::new();
    let mut ctx = PyContext::new();
    let d = ctx.new_dict();
    let class = ctx.new_class("C", ctx.object());
    assert!(PyInt::new(1).fits_heap(&small.heap));
    let t = PyTuple { elements: vec![ctx.none(), d] };
    assert!(t.fits_heap(&ctx.heap));
    assert!(!t.fits_heap(&small.heap));
    let m = PyModule { name: "m".to_string(), dict: d };
    assert!(m.fits_heap(&ctx.heap));
    assert!(!m.fits_heap(&small.heap));
    let c = PyClass { name: "D".to_string(), mro: vec![class, ctx.object()] };
    assert!(c.fits_heap(&ctx.heap));
    assert!(!c.fits_heap(&small.heap));
    let mut entries = StrMap::new();
    entries.insert("k".to_string(), (ctx.none(), d));
    let dict = PyDict { entries };
    assert!(dict.fits_heap(&ctx.heap));
    assert!(!dict.fits_heap(&small.heap));
    let f = Frame { code: d, scope: Scope::new(Some(d), ctx.none()) };
    assert!(f.fits_heap(&ctx.heap));
    assert!(!f.fits_heap(&small.heap));
}

#[test]
fn machine_integers_of_every_width_are_held() {
    let mut ctx = PyContext::new();
    let made = vec![
        (ctx.new_int(i8::MIN), "-128"),
        (ctx.new_int(i16::MIN), "-32768"),
        (ctx.new_int(i32::MIN), "-2147483648"),
        (ctx.new_int(i64::MIN), "-9223372036854775808"),
        (ctx.new_int(i128::MIN), "-170141183460469231731687303715884105728"),
        (ctx.new_int(-5isize), "-5"),
        (ctx.new_int(u8::MAX), "255"),
        (ctx.new_int(u16::MAX), "65535"),
        (ctx.new_int(u32::MAX), "4294967295"),
        (ctx.new_int(u64::MAX), "18446744073709551615"),
        (ctx.new_int(u128::MAX), "340282366920938463463374607431768211455"),
        (ctx.new_int(0usize), "0"),
    ];
    for (r, text) in made {
        let value = &ctx.heap.get(&r).payload::<PyInt>().unwrap().value;
        assert_eq!(value.to_string(), text);
    }
}
