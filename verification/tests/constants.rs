//! The objects for the constants of compiled code.
use num_bigint::BigInt;
use num_complex::Complex64;
use pyobject::bytecode::{CodeObject, Constant};
use pyobject::context::PyContext;
use pyobject::object::{PyObjectRef, SameObject, TypeProtocol};
use pyobject::payload::{PyBytes, PyCode, PyComplex, PyFloat, PyInt, PyString, PyTuple};

fn elements(ctx: &PyContext, r: &PyObjectRef) -> Vec<PyObjectRef> {
    ctx.heap.get(r).payload::<PyTuple>().unwrap().elements.clone()
}

#[test]
fn integer_constants() {
    let mut ctx = PyContext::new();
    let c = Constant::Integer { value: BigInt::from(1u64) << 70 };
    let r = ctx.unwrap_constant(&c);
    assert!(r.typ(&ctx.heap).is(&ctx.int_type()));
    let value = ctx.heap.get(&r).payload::<PyInt>().unwrap().value.clone();
    assert_eq!(value, BigInt::from(1u64) << 70);
    let again = ctx.unwrap_constant(&c);
    assert!(!again.is(&r));
}

#[test]
fn float_and_complex_constants() {
    let mut ctx = PyContext::new();
    let f = ctx.unwrap_constant(&Constant::Float { bits: 0.25f64.to_bits() });
    let z = ctx.unwrap_constant(&Constant::Complex { value: Complex64::new(0.0, 1.0) });
    let bits = ctx.heap.get(&f).payload::<PyFloat>().unwrap().bits;
    assert_eq!(f64::from_bits(bits), 0.25);
    assert_eq!(ctx.heap.get(&z).payload::<PyComplex>().unwrap().value.im, 1.0);
    assert!(z.typ(&ctx.heap).is(&ctx.complex_type()));
}

#[test]
fn string_and_bytes_constants() {
    let mut ctx = PyContext::new();
    let s = ctx.unwrap_constant(&Constant::String { value: "abc".to_string() });
    let b = ctx.unwrap_constant(&Constant::Bytes { value: vec![9, 8] });
    assert_eq!(ctx.heap.get(&s).payload::<PyString>().unwrap().value, "abc");
    assert_eq!(ctx.heap.get(&b).payload::<PyBytes>().unwrap().value, vec![9, 8]);
    assert!(b.typ(&ctx.heap).is(&ctx.bytes_type()));
}

#[test]
fn constants_with_one_object_each() {
    let mut ctx = PyContext::new();
    assert!(ctx.unwrap_constant(&Constant::Boolean { value: true }).is(&ctx.true_value));
    assert!(ctx.unwrap_constant(&Constant::Boolean { value: false }).is(&ctx.false_value));
    assert!(ctx.unwrap_constant(&Constant::NoneValue).is(&ctx.none));
    assert!(ctx.unwrap_constant(&Constant::Ellipsis).is(&ctx.ellipsis));
}

#[test]
fn code_constants() {
    let mut ctx = PyContext::new();
    let code = CodeObject {
        instructions: vec![4],
        source_path: "b.py".to_string(),
        first_line_number: 2,
        obj_name: "g".to_string(),
    };
    let r = ctx.unwrap_constant(&Constant::Code { code: Box::new(code) });
    assert!(r.typ(&ctx.heap).is(&ctx.code_type()));
    let kept = &ctx.heap.get(&r).payload::<PyCode>().unwrap().code;
    assert_eq!(kept.instructions, vec![4]);
    assert_eq!(kept.source_path, "b.py");
    assert_eq!(kept.first_line_number, 2);
    assert_eq!(kept.obj_name, "g");
}

#[test]
fn nested_tuple_constants() {
    let mut ctx = PyContext::new();
    let inner = Constant::Tuple {
        elements: vec![Constant::NoneValue, Constant::Integer { value: BigInt::from(2) }],
    };
    let outer = Constant::Tuple {
        elements: vec![Constant::String { value: "x".to_string() }, inner],
    };
    let r = ctx.unwrap_constant(&outer);
    let parts = elements(&ctx, &r);
    assert_eq!(parts.len(), 2);
    assert_eq!(ctx.heap.get(&parts[0]).payload::<PyString>().unwrap().value, "x");
    let last = elements(&ctx, &parts[1]);
    assert_eq!(last.len(), 2);
    assert!(last[0].is(&ctx.none));
    assert_eq!(ctx.heap.get(&last[1]).payload::<PyInt>().unwrap().value, BigInt::from(2));
    assert!(r.typ(&ctx.heap).is(&ctx.tuple_type()));
}

#[test]
fn the_empty_tuple_constant() {
    let mut ctx = PyContext::new();
    let r = ctx.unwrap_constant(&Constant::Tuple { elements: vec![] });
    assert!(elements(&ctx, &r).is_empty());
}

#[test]
fn a_constant_keeps_its_object() {
    let mut ctx = PyContext::new();
    let r = ctx.unwrap_constant(&Constant::Tuple { elements: vec![Constant::Ellipsis] });
    let d = ctx.new_dict();
    ctx.set_item(&d, "t", r);
    ctx.set_attr(&r, "seen", d);
    assert_eq!(elements(&ctx, &r), vec![ctx.ellipsis()]);
}
