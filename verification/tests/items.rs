//! Items and attributes.
use pyobject::attributes::is_attr_settable;
use pyobject::context::PyContext;
use pyobject::objdict::{find_item_dict, DictProtocol};
use pyobject::object::{PyObject, PyObjectRef, SameObject};
use pyobject::payload::PyString;
use pyobject::strmap::StrMap;

fn attribute(ctx: &PyContext, obj: &PyObjectRef, name: &str) -> Option<PyObjectRef> {
    ctx.heap.get(obj).dict.as_ref().unwrap().get(name).copied()
}

fn text(ctx: &PyContext, obj: &PyObjectRef) -> String {
    ctx.heap.get(obj).payload::<PyString>().unwrap().value.clone()
}

#[test]
fn an_item_is_read_back() {
    let mut ctx = PyContext::new();
    let d = ctx.new_dict();
    let one = ctx.new_int(1);
    assert!(!d.contains_key("a", &ctx.heap));
    assert!(d.get_item("a", &ctx.heap).is_none());
    d.set_item(&mut ctx, "a", one);
    assert!(d.contains_key("a", &ctx.heap));
    assert_eq!(d.get_item("a", &ctx.heap), Some(one));
    assert!(d.get_item("A", &ctx.heap).is_none());
}

#[test]
fn an_item_is_overwritten_and_others_stay() {
    let mut ctx = PyContext::new();
    let d = ctx.new_dict();
    let one = ctx.new_int(1);
    let two = ctx.new_int(2);
    ctx.set_item(&d, "a", one);
    ctx.set_item(&d, "b", one);
    ctx.set_item(&d, "a", two);
    assert_eq!(d.get_item("a", &ctx.heap), Some(two));
    assert_eq!(d.get_item("b", &ctx.heap), Some(one));
    assert_eq!(d.get_key_value_pairs(&ctx.heap).len(), 2);
}

#[test]
fn removing_an_item_undoes_setting_it() {
    let mut ctx = PyContext::new();
    let d = ctx.new_dict();
    let one = ctx.new_int(1);
    d.set_item(&mut ctx, "a", one);
    d.set_item(&mut ctx, "b", one);
    d.del_item("a", &mut ctx.heap);
    assert!(!d.contains_key("a", &ctx.heap));
    assert!(d.contains_key("b", &ctx.heap));
    d.del_item("b", &mut ctx.heap);
    assert!(d.get_key_value_pairs(&ctx.heap).is_empty());
}

#[test]
fn keys_are_str_objects() {
    let mut ctx = PyContext::new();
    let d = ctx.new_dict();
    let one = ctx.new_int(1);
    let two = ctx.new_int(2);
    d.set_item(&mut ctx, "a", one);
    d.set_item(&mut ctx, "b", two);
    let mut pairs: Vec<(String, PyObjectRef)> = d
        .get_key_value_pairs(&ctx.heap)
        .iter()
        .map(|(k, v)| (text(&ctx, k), *v))
        .collect();
    pairs.sort_by_key(|(k, _)| k.clone());
    assert_eq!(pairs, vec![("a".to_string(), one), ("b".to_string(), two)]);
}

#[test]
fn a_module_and_its_dict_share_items() {
    let mut ctx = PyContext::new();
    let d = ctx.new_dict();
    let m = ctx.new_module("m", d);
    let one = ctx.new_int(1);
    let two = ctx.new_int(2);
    m.set_item(&mut ctx, "x", one);
    assert_eq!(d.get_item("x", &ctx.heap), Some(one));
    d.set_item(&mut ctx, "y", two);
    assert_eq!(m.get_item("y", &ctx.heap), Some(two));
    assert_eq!(m.get_key_value_pairs(&ctx.heap).len(), 2);
    assert!(m.get_item("z", &ctx.heap).is_none());
}

#[test]
fn a_module_on_a_module_uses_the_same_dict() {
    let mut ctx = PyContext::new();
    let d = ctx.new_dict();
    let inner = ctx.new_module("inner", d);
    let outer = ctx.new_module("outer", inner);
    let none = ctx.none();
    outer.set_item(&mut ctx, "x", none);
    assert_eq!(d.get_item("x", &ctx.heap), Some(none));
    assert_eq!(outer.get_item("x", &ctx.heap), Some(none));
    assert_eq!(find_item_dict(&outer, &ctx.heap), Some(d));
}

#[test]
fn what_is_neither_dict_nor_module_has_no_items() {
    let mut ctx = PyContext::new();
    let none = ctx.none();
    let m = ctx.new_module("m", none);
    assert_eq!(find_item_dict(&none, &ctx.heap), None);
    assert_eq!(find_item_dict(&m, &ctx.heap), None);
    assert!(ctx.heap.holds(&m));
    let other = PyContext::new();
    assert!(!other.heap.holds(&m));
}

#[test]
fn an_attribute_is_read_back() {
    let mut ctx = PyContext::new();
    let o = ctx.new_object();
    let p = ctx.new_object();
    let one = ctx.new_int(1);
    let two = ctx.new_int(2);
    ctx.set_object_attr(&o, "x", one);
    ctx.set_attr(&o, "y", one);
    ctx.set_attr(&o, "x", two);
    assert_eq!(attribute(&ctx, &o, "x"), Some(two));
    assert_eq!(attribute(&ctx, &o, "y"), Some(one));
    assert!(attribute(&ctx, &p, "x").is_none());
}

#[test]
fn attributes_of_a_module_are_its_variables() {
    let mut ctx = PyContext::new();
    let d = ctx.new_dict();
    let m = ctx.new_module("m", d);
    let none = ctx.none();
    ctx.set_attr(&m, "x", none);
    assert_eq!(d.get_item("x", &ctx.heap), Some(none));
    assert!(attribute(&ctx, &m, "x").is_none());
}

#[test]
fn attributes_can_be_set_on_the_builtin_values() {
    let mut ctx = PyContext::new();
    let one = ctx.new_int(1);
    let objects = vec![
        ctx.object().into_object(),
        ctx.none(),
        ctx.ellipsis(),
        ctx.not_implemented(),
        ctx.new_bool(true),
        ctx.new_bool(false),
    ];
    for o in objects {
        assert!(is_attr_settable(&o, &ctx.heap));
        ctx.set_attr(&o, "x", one);
        assert_eq!(attribute(&ctx, &o, "x"), Some(one));
    }
}

#[test]
fn attributes_need_a_place() {
    let mut ctx = PyContext::new();
    let class = ctx.str_type().into_object();
    let text = PyString { value: String::new() };
    let bare = PyObject::new_without_dict(text, class, &mut ctx.heap);
    assert!(!is_attr_settable(&bare, &ctx.heap));
    let none = ctx.none();
    let hollow = ctx.new_module("m", none);
    assert!(!is_attr_settable(&hollow, &ctx.heap));
    let d = ctx.new_dict();
    let m = ctx.new_module("m", d);
    assert!(is_attr_settable(&m, &ctx.heap));
    assert!(!is_attr_settable(&m, &PyContext::new().heap));
}

#[test]
fn typed_references_serve_as_object_and_value() {
    let mut ctx = PyContext::new();
    let class = ctx.new_class("C", ctx.object());
    let value = ctx.true_value;
    ctx.set_attr(&class, "flag", value);
    assert!(attribute(&ctx, class.as_object(), "flag")
        .unwrap()
        .is(&ctx.true_value));
}

#[test]
fn string_maps_bind_each_key_once() {
    let mut m: StrMap<u32> = StrMap::new();
    m.insert("a".to_string(), 1);
    m.insert("b".to_string(), 2);
    m.insert("a".to_string(), 3);
    assert_eq!(m.get("a"), Some(&3));
    assert_eq!(m.values().len(), 2);
    assert_eq!(m.remove("a"), Some(3));
    assert_eq!(m.remove("a"), None);
    assert!(!m.contains_key("a"));
    assert_eq!(m.get("b"), Some(&2));
}
