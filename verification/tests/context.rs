//! The built-in types and values.
use num_bigint::BigInt;
use pyobject::context::{create_type, PyContext};
use pyobject::object::{
    FromPyObjectRef, IdProtocol, PyClassRef, PyObjectRef, SameObject, TypeProtocol,
};
use pyobject::objtype::{get_type_name, isinstance, issubclass};
use pyobject::payload::PyClass;

fn name_of(ctx: &PyContext, class: &PyClassRef) -> String {
    get_type_name(class.as_object(), &ctx.heap)
}

fn class_of(ctx: &PyContext, obj: &PyObjectRef) -> String {
    get_type_name(&obj.typ(&ctx.heap), &ctx.heap)
}

fn builtin_types(ctx: &PyContext) -> Vec<(PyClassRef, &'static str)> {
    vec![
        (ctx.bytearray_type(), "bytearray"),
        (ctx.bytes_type(), "bytes"),
        (ctx.code_type(), "code"),
        (ctx.complex_type(), "complex"),
        (ctx.dict_type(), "dict"),
        (ctx.float_type(), "float"),
        (ctx.frame_type(), "frame"),
        (ctx.int_type(), "int"),
        (ctx.list_type(), "list"),
        (ctx.module_type(), "module"),
        (ctx.set_type(), "set"),
        (ctx.range_type(), "range"),
        (ctx.slice_type(), "slice"),
        (ctx.frozenset_type(), "frozenset"),
        (ctx.bool_type(), "bool"),
        (ctx.memoryview_type(), "memoryview"),
        (ctx.tuple_type(), "tuple"),
        (ctx.iter_type(), "iter"),
        (ctx.enumerate_type(), "enumerate"),
        (ctx.filter_type(), "filter"),
        (ctx.map_type(), "map"),
        (ctx.zip_type(), "zip"),
        (ctx.str_type(), "str"),
        (ctx.super_type(), "super"),
        (ctx.function_type(), "function"),
        (
            ctx.builtin_function_or_method_type(),
            "builtin_function_or_method",
        ),
        (ctx.property_type(), "property"),
        (ctx.readonly_property_type(), "readonly_property"),
        (ctx.classmethod_type(), "classmethod"),
        (ctx.staticmethod_type(), "staticmethod"),
        (ctx.generator_type(), "generator"),
        (ctx.bound_method_type(), "method"),
        (ctx.weakref_type(), "ref"),
        (ctx.type_type(), "type"),
        (ctx.object(), "object"),
        (ctx.ellipsis_type.clone(), "EllipsisType"),
    ]
}

#[test]
fn test_type_type() {
    PyContext::new();
}

#[test]
fn default_context_has_the_builtin_types() {
    let ctx = PyContext::default();
    assert_eq!(name_of(&ctx, &ctx.int_type()), "int");
}

#[test]
fn builtin_types_have_their_names() {
    let ctx = PyContext::new();
    for (class, name) in builtin_types(&ctx) {
        assert_eq!(name_of(&ctx, &class), name);
    }
}

#[test]
fn builtin_types_are_distinct_classes_below_object() {
    let ctx = PyContext::new();
    let types = builtin_types(&ctx);
    for (i, (class, _)) in types.iter().enumerate() {
        assert!(issubclass(class, &ctx.object(), &ctx.heap));
        assert!(isinstance(class.as_object(), &ctx.type_type(), &ctx.heap));
        assert!(class.as_object().typ(&ctx.heap).is(&ctx.type_type()));
        for (other, _) in types.iter().skip(i + 1) {
            assert!(!class.is(other));
        }
    }
}

#[test]
fn type_and_object_rest_on_each_other() {
    let ctx = PyContext::new();
    let typ = ctx.type_type();
    let object = ctx.object();
    assert!(issubclass(&typ, &object, &ctx.heap));
    assert!(!issubclass(&object, &typ, &ctx.heap));
    assert!(isinstance(typ.as_object(), &typ, &ctx.heap));
    assert!(isinstance(object.as_object(), &typ, &ctx.heap));
    assert!(isinstance(typ.as_object(), &object, &ctx.heap));
    assert!(isinstance(object.as_object(), &object, &ctx.heap));
    assert!(object.deref(&ctx.heap).mro.is_empty());
    assert_eq!(typ.deref(&ctx.heap).mro.len(), 1);
    assert!(typ.deref(&ctx.heap).mro[0].is(&object));
    assert!(typ.typ(&ctx.heap).is(&typ));
}

#[test]
fn bool_and_code_inherit_from_int() {
    let ctx = PyContext::new();
    assert!(issubclass(&ctx.bool_type(), &ctx.int_type(), &ctx.heap));
    assert!(issubclass(&ctx.code_type(), &ctx.int_type(), &ctx.heap));
    assert!(!issubclass(&ctx.int_type(), &ctx.bool_type(), &ctx.heap));
    assert!(!issubclass(&ctx.float_type(), &ctx.int_type(), &ctx.heap));
}

#[test]
fn true_is_one_and_false_is_zero() {
    let ctx = PyContext::new();
    assert_eq!(ctx.true_value.deref(&ctx.heap).value, BigInt::from(1));
    assert_eq!(ctx.false_value.deref(&ctx.heap).value, BigInt::from(0));
    assert!(!ctx.true_value.is(&ctx.false_value));
    assert!(isinstance(
        ctx.true_value.as_object(),
        &ctx.int_type(),
        &ctx.heap
    ));
    assert!(isinstance(
        ctx.false_value.as_object(),
        &ctx.bool_type(),
        &ctx.heap
    ));
}

#[test]
fn bool_objects_are_always_the_same() {
    let ctx = PyContext::new();
    assert!(ctx.new_bool(true).is(&ctx.new_bool(true)));
    assert!(ctx.new_bool(true).is(&ctx.true_value));
    assert!(ctx.new_bool(false).is(&ctx.false_value));
    assert!(!ctx.new_bool(true).is(&ctx.new_bool(false)));
}

#[test]
fn singletons_have_types_of_their_own() {
    let ctx = PyContext::new();
    assert_eq!(class_of(&ctx, &ctx.none()), "NoneType");
    assert_eq!(class_of(&ctx, &ctx.ellipsis()), "EllipsisType");
    assert_eq!(class_of(&ctx, &ctx.not_implemented()), "NotImplementedType");
    assert!(ctx.ellipsis().typ(&ctx.heap).is(&ctx.ellipsis_type));
    assert!(ctx.none().is(&ctx.none()));
    assert!(!ctx.none().is(&ctx.ellipsis()));
}

#[test]
fn exceptions_form_a_hierarchy() {
    let ctx = PyContext::new();
    let zoo = &ctx.exceptions;
    assert_eq!(name_of(&ctx, &zoo.base_exception_type), "BaseException");
    assert_eq!(name_of(&ctx, &zoo.exception_type), "Exception");
    assert_eq!(name_of(&ctx, &zoo.stop_iteration), "StopIteration");
    assert_eq!(name_of(&ctx, &zoo.type_error), "TypeError");
    assert!(issubclass(&zoo.type_error, &zoo.exception_type, &ctx.heap));
    assert!(issubclass(
        &zoo.stop_iteration,
        &zoo.base_exception_type,
        &ctx.heap
    ));
    assert!(!issubclass(&zoo.type_error, &zoo.stop_iteration, &ctx.heap));
}

#[test]
fn a_class_inherits_what_its_base_inherits() {
    let mut ctx = PyContext::new();
    let animal = ctx.new_class("Animal", ctx.object());
    let dog = ctx.new_class("Dog", animal.clone());
    let puppy = ctx.new_class("Puppy", dog.clone());
    assert_eq!(name_of(&ctx, &puppy), "Puppy");
    let mro = &puppy.deref(&ctx.heap).mro;
    assert_eq!(mro.len(), 3);
    assert!(mro[0].is(&dog));
    assert!(mro[1].is(&animal));
    assert!(mro[2].is(&ctx.object()));
    assert!(issubclass(&puppy, &puppy, &ctx.heap));
    assert!(issubclass(&puppy, &animal, &ctx.heap));
    assert!(!issubclass(&animal, &puppy, &ctx.heap));
    assert!(!issubclass(&puppy, &ctx.int_type(), &ctx.heap));
    let rex = ctx.new_instance(puppy.clone(), None);
    assert!(isinstance(&rex, &puppy, &ctx.heap));
    assert!(isinstance(&rex, &animal, &ctx.heap));
    assert!(isinstance(&rex, &ctx.object(), &ctx.heap));
    assert!(!isinstance(&rex, &ctx.type_type(), &ctx.heap));
}

#[test]
fn create_type_makes_a_class_with_one_base() {
    let mut ctx = PyContext::new();
    let meta = ctx.type_type();
    let base = ctx.int_type();
    let class = create_type("Small", &meta, &base, &mut ctx.heap);
    assert_eq!(name_of(&ctx, &class), "Small");
    assert!(class.as_object().typ(&ctx.heap).is(&meta));
    assert!(issubclass(&class, &base, &ctx.heap));
    assert!(ctx
        .heap
        .get(class.as_object())
        .dict
        .as_ref()
        .unwrap()
        .get("x")
        .is_none());
}

#[test]
fn a_class_reference_is_made_from_a_reference_to_a_class() {
    let ctx = PyContext::new();
    let class: PyClassRef = FromPyObjectRef::from_pyobj(ctx.int_type().as_object(), &ctx.heap);
    assert!(class.is(&ctx.int_type()));
    assert_eq!(class.get_id(), ctx.int_type().get_id());
    assert!(ctx
        .heap
        .get(class.as_object())
        .payload_is::<PyClass>());
}
