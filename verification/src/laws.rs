//! What holds of the object model as a whole.
use crate::attributes::{can_set_attr, with_attr};
use crate::bytecode::Constant;
use crate::constants::{lemma_represents_stays, represents};
use crate::context::{keeps_builtins, lemma_builtins_stay, lemma_derived_valid, PyContext};
use crate::convert::{
    mismatch_message, Conversion, MismatchStep, TryFromObject, TryIntoRef, TypeMismatch,
};
use crate::describe::{bytes_like, printed};
use crate::frame::Frame;
use crate::iter::PyIterable;
use crate::numbers::bigint_value;
use crate::object::{
    allocated, entries_of, grows, heap_ok, in_heap, is_class, lemma_place, lemma_same_place,
    lemma_same_ref, lemma_typed, object_at, object_fits, payload_kept, plain_object, ref_at, typed,
    with_entries, with_position, HeapModel, ObjectModel, PyClassRef, PyHeap, PyObjectRef, PyRef,
    PyResult,
};
use crate::objdict::{item_dict, items_of, lemma_item_dict, with_item};
use crate::objtype::{
    class_mro, class_name, hierarchy, instance, lemma_hierarchy_class, lemma_hierarchy_grows,
    mro_below, subclass,
};
use crate::payload::{
    payload_kind, Payload, PayloadModel, PyBuiltinFunction, PyByteArray, PyBytes, PyClass, PyCode,
    PyComplex, PyDict, PyEllipsis, PyFloat, PyFunction, PyInstance, PyInt, PyIteratorValue, PyList,
    PyMethod, PyModule, PyNone, PyNotImplemented, PyObjectPayload, PyReadOnlyProperty, PySet,
    PyString, PyTuple,
};
use crate::value::PyValue;
use num_bigint::BigInt;
use vstd::prelude::*;

verus! {

/// Growth is an order: a heap has grown from itself, and growing twice is
/// growing.
pub proof fn law_growth_composes(a: HeapModel, b: HeapModel, c: HeapModel)
    ensures
        grows(a, a),
        grows(a, b) && grows(b, c) ==> grows(a, c),
{
    if grows(a, b) && grows(b, c) {
        assert forall|i: int| 0 <= i < a.len() implies {
            &&& (#[trigger] c[i]).typ == a[i].typ
            &&& c[i].dict is Some == a[i].dict is Some
            &&& payload_kept(a[i].payload, c[i].payload)
        } by {
            assert(b[i].typ == a[i].typ);
        }
    }
}

/// A new object is none of those that were there, and these do not change.
pub proof fn law_new_object_is_new(
    h: HeapModel,
    after: HeapModel,
    r: PyObjectRef,
    o: ObjectModel,
    other: PyObjectRef,
)
    requires
        allocated(h, after, r, o),
        in_heap(h, other),
    ensures
        r != other,
        object_at(after, r) == o,
        object_at(after, other) == object_at(h, other),
{
}

/// A class is a subclass of itself, and an object is an instance of its type.
pub proof fn law_own_type(h: HeapModel, c: PyObjectRef, r: PyObjectRef)
    ensures
        subclass(h, c, c),
        instance(h, r, object_at(h, r).typ),
{
}

/// Two classes that are subclasses of each other are the same class.
pub proof fn law_subclass_antisymmetric(h: HeapModel, c: PyObjectRef, d: PyObjectRef)
    requires
        heap_ok(h),
        is_class(h, c),
        is_class(h, d),
        subclass(h, c, d),
        subclass(h, d, c),
    ensures
        c == d,
{
    if c != d {
        assert(object_fits(h, c@, h[c@ as int]));
        assert(object_fits(h, d@, h[d@ as int]));
        let i = choose|i: int|
            0 <= i < class_mro(h, c).len() && (#[trigger] class_mro(h, c)[i])@ == d;
        let j = choose|j: int|
            0 <= j < class_mro(h, d).len() && (#[trigger] class_mro(h, d)[j])@ == c;
        assert(d@ < c@);
        assert(c@ < d@);
    }
}

/// In a hierarchy a subclass of a subclass is a subclass, and so an instance
/// of a class is one of every class that it inherits from.
pub proof fn law_subclass_transitive(
    h: HeapModel,
    root: PyObjectRef,
    c: PyObjectRef,
    d: PyObjectRef,
    e: PyObjectRef,
)
    requires
        hierarchy(h, root),
        is_class(h, c),
        subclass(h, c, d),
        subclass(h, d, e),
    ensures
        subclass(h, c, e),
        forall|r: PyObjectRef| object_at(h, r).typ == c ==> #[trigger] instance(h, r, e),
{
    reveal(hierarchy);
    if c != d {
        let i = choose|i: int|
            0 <= i < class_mro(h, c).len() && (#[trigger] class_mro(h, c)[i])@ == d;
        assert(subclass(h, class_mro(h, c)[i]@, e));
        assert(subclass(h, c, e));
    }
}

/// In a hierarchy everything is an instance of its root, and the root is a
/// superclass of every class.
pub proof fn law_everything_is_an_object(h: HeapModel, root: PyObjectRef, r: PyObjectRef)
    requires
        hierarchy(h, root),
        in_heap(h, r),
    ensures
        is_class(h, object_at(h, r).typ),
        instance(h, r, root),
        is_class(h, r) ==> subclass(h, r, root),
{
    reveal(hierarchy);
    assert(is_class(h, h[r@ as int].typ));
}

/// `type` inherits from `object`, and both `type` and `object` are instances
/// of `type`.
pub proof fn law_type_and_object(ctx: PyContext)
    requires
        ctx.wf(),
    ensures
        subclass(ctx.heap@, ctx.type_type@, ctx.object@),
        !subclass(ctx.heap@, ctx.object@, ctx.type_type@),
        object_at(ctx.heap@, ctx.type_type@).typ == ctx.type_type@,
        object_at(ctx.heap@, ctx.object@).typ == ctx.type_type@,
        instance(ctx.heap@, ctx.type_type@, ctx.type_type@),
        instance(ctx.heap@, ctx.object@, ctx.type_type@),
        instance(ctx.heap@, ctx.type_type@, ctx.object@),
        instance(ctx.heap@, ctx.object@, ctx.object@),
{
    broadcast use lemma_derived_valid;

    let h = ctx.heap@;
    assert(class_mro(h, ctx.type_type@)[0] == ctx.object);
    assert(class_mro(h, ctx.object@).len() == 0);
}

/// `True` and `False` are two objects, which carry 1 and 0. They are instances
/// of `bool` and, since `bool` inherits from `int`, of `int`.
pub proof fn law_bool_is_int(ctx: PyContext)
    requires
        ctx.wf(),
    ensures
        ctx.true_value@ != ctx.false_value@,
        object_at(ctx.heap@, ctx.true_value@).payload == (PayloadModel::Int { value: 1 }),
        object_at(ctx.heap@, ctx.false_value@).payload == (PayloadModel::Int { value: 0 }),
        subclass(ctx.heap@, ctx.bool_type@, ctx.int_type@),
        instance(ctx.heap@, ctx.true_value@, ctx.bool_type@),
        instance(ctx.heap@, ctx.false_value@, ctx.bool_type@),
        instance(ctx.heap@, ctx.true_value@, ctx.int_type@),
        instance(ctx.heap@, ctx.false_value@, ctx.int_type@),
{
    broadcast use lemma_derived_valid;

    assert(class_mro(ctx.heap@, ctx.bool_type@)[0] == ctx.int_type);
}

/// A class with one base is a subclass of itself and of what its base is a
/// subclass of, and of nothing else; what the other classes are subclasses of
/// does not change, and the classes still form a hierarchy.
pub proof fn law_new_class(
    h: HeapModel,
    after: HeapModel,
    c: PyClassRef,
    o: ObjectModel,
    base: PyClassRef,
)
    requires
        heap_ok(h),
        base.valid(h),
        allocated(h, after, c@, o),
        o.payload matches PayloadModel::Class { name, mro } && mro == mro_below(h, base),
    ensures
        forall|d: PyObjectRef| #[trigger]
            subclass(after, c@, d) == (d == c@ || subclass(h, base@, d)),
        forall|b: PyObjectRef, d: PyObjectRef|
            in_heap(h, b) ==> #[trigger] subclass(after, b, d) == subclass(h, b, d),
        forall|root: PyObjectRef|
            is_class(h, o.typ) && #[trigger] hierarchy(h, root) ==> hierarchy(after, root),
{
    assert forall|d: PyObjectRef| #[trigger]
        subclass(after, c@, d) == (d == c@ || subclass(h, base@, d)) by {
        let mro = class_mro(after, c@);
        assert(mro == mro_below(h, base));
        if subclass(after, c@, d) && d != c@ {
            let i = choose|i: int| 0 <= i < mro.len() && (#[trigger] mro[i])@ == d;
            if i > 0 {
                assert(class_mro(h, base@)[i - 1]@ == d);
            }
        }
        if subclass(h, base@, d) {
            if d == base@ {
                assert(mro[0]@ == d);
            } else {
                let j = choose|j: int|
                    0 <= j < class_mro(h, base@).len() && (#[trigger] class_mro(h, base@)[j])@ == d;
                assert(mro[j + 1]@ == d);
            }
        }
    }
    assert forall|b: PyObjectRef, d: PyObjectRef| in_heap(h, b) implies #[trigger] subclass(
        after,
        b,
        d,
    ) == subclass(h, b, d) by {
        assert(class_mro(after, b) == class_mro(h, b));
    }
    assert forall|root: PyObjectRef|
        is_class(h, o.typ) && #[trigger] hierarchy(h, root) implies hierarchy(after, root) by {
        lemma_hierarchy_class(h, o, base, root);
    }
}

/// A typed reference whose object has a payload of its type keeps it.
pub proof fn law_typed_reference_stays_valid<T: PyObjectPayload>(
    h: HeapModel,
    after: HeapModel,
    r: PyRef<T>,
)
    requires
        r.valid(h),
        grows(h, after),
    ensures
        r.valid(after),
{
    let i = r@@ as int;
    assert(after[i].typ == h[i].typ);
    T::lemma_kind(h[i].payload);
    T::lemma_kind(after[i].payload);
}

/// The payload of a new object is of the type that it was made with and of no
/// other, whatever the class of the object, and it stays so.
pub proof fn law_payload_is_of_one_type<T: PyObjectPayload, U: PyObjectPayload>(
    h: HeapModel,
    made: HeapModel,
    after: HeapModel,
    r: PyObjectRef,
    o: ObjectModel,
    p: U,
)
    requires
        allocated(h, made, r, o),
        o.payload == p.as_payload()@,
        grows(made, after),
    ensures
        T::is_model(object_at(made, r).payload) == (T::kind() == U::kind()),
        T::is_model(object_at(after, r).payload) == (T::kind() == U::kind()),
{
    U::lemma_as_payload(p, p);
    U::lemma_kind(o.payload);
    T::lemma_kind(o.payload);
    T::lemma_kind(object_at(after, r).payload);
    assert(payload_kept(made[r@ as int].payload, after[r@ as int].payload));
}

/// A value that forgot its type is got back as the same value by its own type,
/// and by no other.
pub proof fn law_payload_is_got_back<T: PyObjectPayload, U: PyObjectPayload>(
    p: U,
    forgotten: Payload,
    same: Option<&U>,
    other: Option<&T>,
)
    requires
        call_ensures(U::into_payload, (p,), forgotten),
        call_ensures(U::downcast_ref, (&forgotten,), same),
        call_ensures(T::downcast_ref, (&forgotten,), other),
    ensures
        same == Some(&p),
        other is Some == (T::kind() == U::kind()),
{
    U::lemma_kind(forgotten@);
    T::lemma_kind(forgotten@);
    U::lemma_as_payload(*same->0, p);
}

/// A payload is of exactly one type.
pub proof fn law_payload_types_exclude_one_another(p: PayloadModel)
    ensures
        payload_kind(p) < 23,
        PyClass::is_model(p) == (payload_kind(p) == 0),
        PyModule::is_model(p) == (payload_kind(p) == 1),
        PyInstance::is_model(p) == (payload_kind(p) == 2),
        PyNone::is_model(p) == (payload_kind(p) == 3),
        PyEllipsis::is_model(p) == (payload_kind(p) == 4),
        PyNotImplemented::is_model(p) == (payload_kind(p) == 5),
        PyInt::is_model(p) == (payload_kind(p) == 6),
        PyFloat::is_model(p) == (payload_kind(p) == 7),
        PyComplex::is_model(p) == (payload_kind(p) == 8),
        PyString::is_model(p) == (payload_kind(p) == 9),
        PyBytes::is_model(p) == (payload_kind(p) == 10),
        PyByteArray::is_model(p) == (payload_kind(p) == 11),
        PyTuple::is_model(p) == (payload_kind(p) == 12),
        PyList::is_model(p) == (payload_kind(p) == 13),
        PySet::is_model(p) == (payload_kind(p) == 14),
        PyDict::is_model(p) == (payload_kind(p) == 15),
        PyBuiltinFunction::is_model(p) == (payload_kind(p) == 16),
        PyReadOnlyProperty::is_model(p) == (payload_kind(p) == 17),
        Frame::is_model(p) == (payload_kind(p) == 18),
        PyCode::is_model(p) == (payload_kind(p) == 19),
        PyFunction::is_model(p) == (payload_kind(p) == 20),
        PyMethod::is_model(p) == (payload_kind(p) == 21),
        PyIteratorValue::is_model(p) == (payload_kind(p) == 22),
{
}

/// Moving an iterator changes its position and nothing else.
pub proof fn law_position_is_read_back(
    h: HeapModel,
    r: PyRef<PyIteratorValue>,
    position: nat,
    other: PyObjectRef,
)
    requires
        r.valid(h),
        in_heap(h, other),
        other != r@,
    ensures
        ({
            let o = object_at(h, r@);
            let after = with_position(h, r@, position);
            &&& after.len() == h.len()
            &&& object_at(after, r@) == (ObjectModel {
                payload: PayloadModel::Iterator { position, iterated_obj: o.payload->iterated_obj },
                ..o
            })
            &&& object_at(after, other) == object_at(h, other)
        }),
{
    lemma_same_place(other, r@);
}

/// A context is still in order after its heap has changed in a way that the
/// operations on heaps allow.
pub proof fn law_context_outlives_changes(before: PyContext, after: PyContext)
    requires
        before.wf(),
        keeps_builtins(before, after),
        after.heap.wf(),
        grows(before.heap@, after.heap@),
    ensures
        after.wf(),
{
    lemma_builtins_stay(before, before.heap@, after.heap@);
}

/// What was set under a key of a `dict` object is read back, with a `str`
/// object that is the key, and the values under other keys, the other objects
/// and the attributes stay.
pub proof fn law_item_is_read_back(
    h: HeapModel,
    str_type: PyObjectRef,
    d: PyObjectRef,
    key: Seq<char>,
    value: PyObjectRef,
    other_key: Seq<char>,
    other: PyObjectRef,
)
    requires
        in_heap(h, d),
        object_at(h, d).payload is Dict,
        in_heap(h, other),
        other != d,
    ensures
        ({
            let after = with_item(h, str_type, d, key, value);
            &&& entries_of(after, d).contains_key(key)
            &&& entries_of(after, d)[key].1 == value
            &&& entries_of(after, d)[key].0 == ref_at(h.len())
            &&& after[h.len() as int] == plain_object(str_type, PayloadModel::Str { value: key })
            &&& other_key != key ==> entries_of(after, d).contains_key(other_key) == entries_of(
                h,
                d,
            ).contains_key(other_key)
            &&& other_key != key && entries_of(h, d).contains_key(other_key) ==> entries_of(
                after,
                d,
            )[other_key] == entries_of(h, d)[other_key]
            &&& object_at(after, other) == object_at(h, other)
            &&& object_at(after, d).dict == object_at(h, d).dict
        }),
{
    lemma_same_place(other, d);
}

/// Setting the value under a key twice leaves the second value, and the values
/// under two keys can be set in any order.
pub proof fn law_items_are_overwritten(
    h: HeapModel,
    str_type: PyObjectRef,
    d: PyObjectRef,
    first_key: Seq<char>,
    first: PyObjectRef,
    second_key: Seq<char>,
    second: PyObjectRef,
)
    requires
        in_heap(h, d),
        object_at(h, d).payload is Dict,
    ensures
        ({
            let after = with_item(
                with_item(h, str_type, d, first_key, first),
                str_type,
                d,
                second_key,
                second,
            );
            &&& entries_of(after, d)[second_key].1 == second
            &&& first_key != second_key ==> entries_of(after, d)[first_key].1 == first
            &&& entries_of(after, d).dom() == entries_of(h, d).dom().insert(first_key).insert(
                second_key,
            )
        }),
{
    let after = with_item(
        with_item(h, str_type, d, first_key, first),
        str_type,
        d,
        second_key,
        second,
    );
    assert(entries_of(after, d).dom() =~= entries_of(h, d).dom().insert(first_key).insert(
        second_key,
    ));
}

/// What is removed from a `dict` object is no longer there, and removing a key
/// that was not there before it was set undoes the setting.
pub proof fn law_item_is_removed(
    h: HeapModel,
    str_type: PyObjectRef,
    d: PyObjectRef,
    key: Seq<char>,
    value: PyObjectRef,
)
    requires
        in_heap(h, d),
        object_at(h, d).payload is Dict,
    ensures
        ({
            let removed = with_entries(h, d, entries_of(h, d).remove(key));
            !entries_of(removed, d).contains_key(key)
        }),
        ({
            let set = with_item(h, str_type, d, key, value);
            let undone = with_entries(set, d, entries_of(set, d).remove(key));
            !entries_of(h, d).contains_key(key) ==> object_at(undone, d) == object_at(h, d)
        }),
{
    let set = with_item(h, str_type, d, key, value);
    let undone = with_entries(set, d, entries_of(set, d).remove(key));
    if !entries_of(h, d).contains_key(key) {
        assert(entries_of(undone, d) =~= entries_of(h, d));
    }
}

/// The items of a module are those of what holds its variables, and a variable
/// that is set on one of the two is read on the other. The other variables and
/// the module itself, with its attributes, stay.
pub proof fn law_module_shares_items(
    h: HeapModel,
    str_type: PyObjectRef,
    m: PyObjectRef,
    key: Seq<char>,
    value: PyObjectRef,
    other_key: Seq<char>,
)
    requires
        heap_ok(h),
        in_heap(h, m),
        object_at(h, m).payload is Module,
        item_dict(h, m) is Some,
    ensures
        ({
            let held = object_at(h, m).payload->dict;
            let after = with_item(h, str_type, item_dict(h, m)->0, key, value);
            &&& item_dict(h, m) == item_dict(h, held)
            &&& items_of(h, m) == items_of(h, held)
            &&& with_attr(h, str_type, m, key, value) == after
            &&& item_dict(after, m) == item_dict(h, m)
            &&& item_dict(after, held) == item_dict(h, m)
            &&& items_of(after, m).contains_key(key)
            &&& items_of(after, m)[key].1 == value
            &&& items_of(after, held) == items_of(after, m)
            &&& other_key != key ==> items_of(after, m).contains_key(other_key) == items_of(
                h,
                m,
            ).contains_key(other_key)
            &&& other_key != key && items_of(h, m).contains_key(other_key) ==> items_of(
                after,
                m,
            )[other_key] == items_of(h, m)[other_key]
            &&& object_at(after, m) == object_at(h, m)
        }),
{
    let held = object_at(h, m).payload->dict;
    let d = item_dict(h, m)->0;
    let after = with_item(h, str_type, d, key, value);
    assert(object_fits(h, m@, h[m@ as int]));
    lemma_item_dict(h, m);
    assert(grows(h, after));
    lemma_item_dict_stays(h, after, m);
    lemma_item_dict_stays(h, after, held);
}

/// What holds the items of an object stays the same.
proof fn lemma_item_dict_stays(h: HeapModel, after: HeapModel, r: PyObjectRef)
    requires
        grows(h, after),
        item_dict(h, r) is Some,
    ensures
        item_dict(after, r) == item_dict(h, r),
    decreases r@,
{
    assert(after[r@ as int].typ == h[r@ as int].typ);
    if object_at(h, r).payload is Module {
        lemma_item_dict_stays(h, after, object_at(h, r).payload->dict);
    }
}

/// Every key of the `dict` object is a `str` object with the text that it
/// stands under.
pub open spec fn keys_are_strings(h: HeapModel, d: PyObjectRef) -> bool {
    forall|k: Seq<char>| #[trigger]
        entries_of(h, d).contains_key(k) ==> {
            &&& in_heap(h, entries_of(h, d)[k].0)
            &&& object_at(h, entries_of(h, d)[k].0).payload == PayloadModel::Str { value: k }
        }
}

/// The keys of a `dict` object that is filled by setting items are `str`
/// objects with the texts that they stand under: it holds of a new one, which
/// has no keys, setting and removing items keeps it, and so does all that leaves
/// its items alone.
pub proof fn law_keys_are_strings(
    heap: PyHeap,
    h: HeapModel,
    str_type: PyObjectRef,
    d: PyObjectRef,
    key: Seq<char>,
    value: PyObjectRef,
    after: HeapModel,
)
    requires
        heap@ == with_item(h, str_type, d, key, value),
        in_heap(h, d),
        object_at(h, d).payload is Dict,
    ensures
        entries_of(h, d) == Map::<Seq<char>, (PyObjectRef, PyObjectRef)>::empty()
            ==> keys_are_strings(h, d),
        keys_are_strings(h, d) ==> keys_are_strings(heap@, d),
        keys_are_strings(h, d) ==> keys_are_strings(
            with_entries(h, d, entries_of(h, d).remove(key)),
            d,
        ),
        keys_are_strings(h, d) && grows(h, after) && entries_of(after, d) == entries_of(h, d)
            ==> keys_are_strings(after, d),
{
    lemma_place(heap, h.len());
    if keys_are_strings(h, d) && grows(h, after) && entries_of(after, d) == entries_of(h, d) {
        assert forall|k: Seq<char>| #[trigger] entries_of(after, d).contains_key(k) implies {
            &&& in_heap(after, entries_of(after, d)[k].0)
            &&& object_at(after, entries_of(after, d)[k].0).payload == PayloadModel::Str {
                value: k,
            }
        } by {
            assert(entries_of(h, d).contains_key(k));
            let place = entries_of(h, d)[k].0@ as int;
            assert(payload_kept(h[place].payload, after[place].payload));
        }
    }
    if keys_are_strings(h, d) {
        assert forall|k: Seq<char>| #[trigger] entries_of(heap@, d).contains_key(k) implies {
            &&& in_heap(heap@, entries_of(heap@, d)[k].0)
            &&& object_at(heap@, entries_of(heap@, d)[k].0).payload == PayloadModel::Str {
                value: k,
            }
        } by {
            if k != key {
                assert(entries_of(h, d).contains_key(k));
            }
        }
        let removed = with_entries(h, d, entries_of(h, d).remove(key));
        assert forall|k: Seq<char>| #[trigger] entries_of(removed, d).contains_key(k) implies {
            &&& in_heap(removed, entries_of(removed, d)[k].0)
            &&& object_at(removed, entries_of(removed, d)[k].0).payload == PayloadModel::Str {
                value: k,
            }
        } by {
            assert(entries_of(h, d).contains_key(k));
        }
    }
}

/// An attribute that was set on an object is read back, and the other
/// attributes, the other objects and what the object carries stay.
pub proof fn law_attribute_is_read_back(
    h: HeapModel,
    str_type: PyObjectRef,
    obj: PyObjectRef,
    name: Seq<char>,
    value: PyObjectRef,
    other_name: Seq<char>,
    other: PyObjectRef,
)
    requires
        can_set_attr(h, obj),
        !(object_at(h, obj).payload is Module),
        in_heap(h, other),
        other != obj,
    ensures
        ({
            let after = with_attr(h, str_type, obj, name, value);
            let before_dict = object_at(h, obj).dict->0;
            let dict = object_at(after, obj).dict->0;
            &&& after.len() == h.len()
            &&& object_at(after, obj).dict is Some
            &&& dict.contains_key(name) && dict[name] == value
            &&& other_name != name ==> dict.contains_key(other_name) == before_dict.contains_key(
                other_name,
            )
            &&& other_name != name && before_dict.contains_key(other_name) ==> dict[other_name]
                == before_dict[other_name]
            &&& object_at(after, obj).payload == object_at(h, obj).payload
            &&& object_at(after, obj).typ == object_at(h, obj).typ
            &&& object_at(after, other) == object_at(h, other)
        }),
{
    lemma_same_place(other, obj);
}

/// The object that was made from a value of a type, in its class or in one that
/// inherits from it, is converted back to the reference to it, now and after
/// the heap has grown.
pub proof fn law_value_is_converted_back<T: PyValue>(
    before: PyContext,
    after: PyContext,
    r: PyRef<T>,
)
    requires
        before.wf(),
        keeps_builtins(before, after),
        grows(before.heap@, after.heap@),
        r.valid(after.heap@),
        instance(after.heap@, r@, T::class_in(before)@),
    ensures
        <PyRef<T> as TryFromObject>::converted(after, r@, None) == Conversion::<PyRef<T>>::Ready(
            Ok(r),
        ),
{
    broadcast use {lemma_typed, lemma_same_ref};

    T::lemma_class_stays(before, after);
    assert(typed::<T>(r@) == r);
}

/// What an object is converted to is a reference to that object, whose payload
/// is of the type of the reference, now and after the heap has grown.
pub proof fn law_converted_reference_is_valid<T: PyValue>(
    ctx: PyContext,
    obj: PyObjectRef,
    r: PyRef<T>,
    after: HeapModel,
)
    requires
        in_heap(ctx.heap@, obj),
        grows(ctx.heap@, after),
        <PyRef<T> as TryFromObject>::converted(ctx, obj, None) == Conversion::<PyRef<T>>::Ready(
            Ok(r),
        ),
    ensures
        r@ == obj,
        r.valid(ctx.heap@),
        r.valid(after),
        <PyObjectRef as TryIntoRef<T>>::coerced(obj, ctx) == Conversion::<PyRef<T>>::Ready(Ok(r)),
{
    broadcast use lemma_typed;

    law_typed_reference_stays_valid(ctx.heap@, after, r);
}

/// `None` is converted to no value, for which no method of it is needed, and any
/// other object as if the value were not optional.
pub proof fn law_none_is_optional<T: TryFromObject>(
    ctx: PyContext,
    obj: PyObjectRef,
    method: Option<PyResult>,
)
    ensures
        <Option<T> as TryFromObject>::needs(ctx, ctx.none@) is None,
        <Option<T> as TryFromObject>::converted(ctx, ctx.none@, method) == Conversion::<
            Option<T>,
        >::Ready(Ok(None)),
        obj != ctx.none@ ==> <Option<T> as TryFromObject>::needs(ctx, obj) == T::needs(ctx, obj),
        obj != ctx.none@ ==> <Option<T> as TryFromObject>::converted(ctx, obj, method)
            == T::converted(ctx, obj, method).spec_some(),
{
}

/// What is called for an iterator over an iterable object is the method that
/// was got from the object.
pub proof fn law_iterable_keeps_its_method<T: TryFromObject>(
    ctx: PyContext,
    obj: PyObjectRef,
    method: PyObjectRef,
)
    ensures
        <PyIterable<T> as TryFromObject>::converted(ctx, obj, Some(Ok(method))) matches
            Conversion::Ready(Ok(iterable)) && iterable.iter_method() == method,
{
    PyIterable::<T>::lemma_with_method(method);
}

/// An `int` object that is made from a machine integer holds that integer: it is
/// what `Into` makes of it.
pub proof fn law_machine_integers_are_held(value: BigInt)
    ensures
        forall|n: i8| #[trigger]
            call_ensures(<i8 as Into<BigInt>>::into, (n,), value) ==> bigint_value(value) == n,
        forall|n: i16| #[trigger]
            call_ensures(<i16 as Into<BigInt>>::into, (n,), value) ==> bigint_value(value) == n,
        forall|n: i32| #[trigger]
            call_ensures(<i32 as Into<BigInt>>::into, (n,), value) ==> bigint_value(value) == n,
        forall|n: i64| #[trigger]
            call_ensures(<i64 as Into<BigInt>>::into, (n,), value) ==> bigint_value(value) == n,
        forall|n: i128| #[trigger]
            call_ensures(<i128 as Into<BigInt>>::into, (n,), value) ==> bigint_value(value) == n,
        forall|n: isize| #[trigger]
            call_ensures(<isize as Into<BigInt>>::into, (n,), value) ==> bigint_value(value) == n,
        forall|n: u8| #[trigger]
            call_ensures(<u8 as Into<BigInt>>::into, (n,), value) ==> bigint_value(value) == n,
        forall|n: u16| #[trigger]
            call_ensures(<u16 as Into<BigInt>>::into, (n,), value) ==> bigint_value(value) == n,
        forall|n: u32| #[trigger]
            call_ensures(<u32 as Into<BigInt>>::into, (n,), value) ==> bigint_value(value) == n,
        forall|n: u64| #[trigger]
            call_ensures(<u64 as Into<BigInt>>::into, (n,), value) ==> bigint_value(value) == n,
        forall|n: u128| #[trigger]
            call_ensures(<u128 as Into<BigInt>>::into, (n,), value) ==> bigint_value(value) == n,
        forall|n: usize| #[trigger]
            call_ensures(<usize as Into<BigInt>>::into, (n,), value) ==> bigint_value(value) == n,
{
}

/// The object that stands for a constant keeps standing for it.
pub proof fn law_constant_is_kept(
    ctx: PyContext,
    h: HeapModel,
    after: HeapModel,
    r: PyObjectRef,
    c: Constant,
)
    requires
        grows(h, after),
        represents(ctx, h, r, c),
    ensures
        represents(ctx, after, r, c),
{
    lemma_represents_stays(ctx, h, after, r, c);
}

/// A class whose own class is `type` is printed with its name, a module with its
/// own, and an object that is neither with the name of its class.
pub proof fn law_printed_by_name(ctx: PyContext, r: PyObjectRef)
    requires
        ctx.wf(),
        in_heap(ctx.heap@, r),
    ensures
        ({
            let o = object_at(ctx.heap@, r);
            &&& o.payload is Class && o.typ == ctx.type_type@ ==> printed(ctx.heap@, o)
                == "type object '"@ + class_name(ctx.heap@, r) + "'"@
            &&& o.payload matches PayloadModel::Module { name, dict } ==> printed(ctx.heap@, o)
                == "module '"@ + name + "'"@
            &&& !(o.payload is Class) && !(o.payload is Module) ==> printed(ctx.heap@, o) == "'"@
                + class_name(ctx.heap@, o.typ) + "' object"@
        }),
{
    broadcast use lemma_derived_valid;

    assert(class_name(ctx.heap@, ctx.type_type@) == "type"@);
}

/// Objects of the types `bytes`, `bytearray` and `memoryview` are bytes-like.
pub proof fn law_bytes_like_types(ctx: PyContext)
    requires
        ctx.wf(),
    ensures
        bytes_like(class_name(ctx.heap@, ctx.bytes_type@)),
        bytes_like(class_name(ctx.heap@, ctx.bytearray_type@)),
        bytes_like(class_name(ctx.heap@, ctx.memoryview_type@)),
        class_name(ctx.heap@, ctx.bytes_type@) == "bytes"@,
        class_name(ctx.heap@, ctx.bytearray_type@) != "bytes"@,
        class_name(ctx.heap@, ctx.memoryview_type@) != "bytes"@,
{
    broadcast use lemma_derived_valid;

    reveal_strlit("bytes");
    reveal_strlit("bytearray");
    reveal_strlit("memoryview");
    assert("bytes"@.len() == 5);
    assert("bytearray"@.len() == 9);
    assert("memoryview"@.len() == 10);
}

/// In a hierarchy below a root, the classes still form one after objects that
/// are not classes have been made, and after items and attributes have been
/// set.
pub proof fn law_hierarchy_is_kept(h: HeapModel, after: HeapModel, root: PyObjectRef)
    requires
        heap_ok(h),
        hierarchy(h, root),
        grows(h, after),
        forall|i: int|
            h.len() <= i < after.len() ==> is_class(h, (#[trigger] after[i]).typ) && !(
            after[i].payload is Class),
    ensures
        hierarchy(after, root),
        forall|c: PyObjectRef, d: PyObjectRef|
            is_class(h, c) ==> #[trigger] subclass(after, c, d) == subclass(h, c, d),
{
    lemma_hierarchy_grows(h, after, root);
    assert forall|c: PyObjectRef, d: PyObjectRef| is_class(h, c) implies #[trigger] subclass(
        after,
        c,
        d,
    ) == subclass(h, c, d) by {
        assert(after[c@ as int].payload == h[c@ as int].payload);
        assert(class_mro(after, c) == class_mro(h, c));
    }
}

/// A mismatch is asked about twice, for the first type and then for the second,
/// and the message names both.
pub proof fn law_mismatch_names_both_types(
    m: TypeMismatch,
    next: TypeMismatch,
    first: String,
    second: String,
    asked: PyObjectRef,
    after: PyObjectRef,
    last: MismatchStep,
)
    requires
        m.first_str is None,
        call_ensures(TypeMismatch::asks, (&m,), asked),
        call_ensures(TypeMismatch::answer, (m, Ok(first)), MismatchStep::Ask(next)),
        call_ensures(TypeMismatch::asks, (&next,), after),
        call_ensures(TypeMismatch::answer, (next, Ok(second)), last),
    ensures
        asked == m.first,
        after == m.second,
        last matches MismatchStep::RaiseTypeError(msg) && msg@ == mismatch_message(
            m.kind,
            first@,
            second@,
        ),
{
}

} // verus!
