//! What items and attributes are after they have been set or removed: how calls
//! on the same object relate.
use crate::attributes::is_attr_settable;
use crate::context::PyContext;
use crate::objdict::{find_item_dict, item_dict, DictProtocol};
use crate::object::{grows, lemma_place, HeapModel, PyHeap, PyObjectRef};
use crate::payload::PayloadModel;
use crate::strmap::{lists_map, StrMap};
use vstd::prelude::*;

verus! {

/// `d` is the `dict` object that `r` leads to: a `dict` object leads to itself,
/// and a module to what the object with its variables leads to.
pub open spec fn leads_to(h: HeapModel, r: PyObjectRef, d: PyObjectRef) -> bool
    decreases r@,
{
    &&& r@ < h.len()
    &&& match h[r@ as int].payload {
        PayloadModel::Dict { entries } => d == r,
        PayloadModel::Module { name, dict } => dict@ < r@ && leads_to(h, dict, d),
        _ => false,
    }
}

/// A `dict` object leads to itself, a module to where the object with its
/// variables leads, and nothing else leads anywhere. What is led to is a `dict`
/// object.
pub proof fn law_leads_to(h: HeapModel, r: PyObjectRef, d: PyObjectRef)
    requires
        heap_refers_back(h),
    ensures
        r@ < h.len() && h[r@ as int].payload is Dict ==> leads_to(h, r, d) == (d == r),
        r@ < h.len() && h[r@ as int].payload is Module ==> leads_to(h, r, d) == leads_to(
            h,
            h[r@ as int].payload->dict,
            d,
        ),
        leads_to(h, r, d) ==> h[r@ as int].payload is Dict || h[r@ as int].payload is Module,
        leads_to(h, r, d) ==> d@ < h.len() && h[d@ as int].payload is Dict,
    decreases r@,
{
    if r@ < h.len() && h[r@ as int].payload is Module {
        law_leads_to(h, h[r@ as int].payload->dict, d);
    }
}

/// The variables of every module are in an object that was there before it.
pub open spec fn heap_refers_back(h: HeapModel) -> bool {
    forall|i: int|
        0 <= i < h.len() && (#[trigger] h[i]).payload is Module ==> h[i].payload->dict@ < i
}

proof fn lemma_leads_to(h: HeapModel, r: PyObjectRef, d: PyObjectRef)
    ensures
        leads_to(h, r, d) == (item_dict(h, r) == Some(d)),
    decreases r@,
{
    if r@ < h.len() {
        if let PayloadModel::Module { name, dict } = h[r@ as int].payload {
            if dict@ < r@ {
                lemma_leads_to(h, dict, d);
            }
        }
    }
}

/// What holds the items of an object is found exactly if the object leads to it.
pub proof fn law_item_dict_is_found(
    heap: PyHeap,
    obj: PyObjectRef,
    d: PyObjectRef,
    r: Option<PyObjectRef>,
)
    requires
        call_ensures(find_item_dict, (&obj, &heap), r),
    ensures
        (r == Some(d)) == leads_to(heap@, obj, d),
{
    lemma_leads_to(heap@, obj, d);
}

/// What is read of an object that leads to a `dict` object is what that object
/// has under the key.
pub proof fn law_item_is_read(
    heap: PyHeap,
    obj: PyObjectRef,
    d: PyObjectRef,
    k: &str,
    got: Option<PyObjectRef>,
    held: bool,
)
    requires
        leads_to(heap@, obj, d),
    ensures
        call_ensures(<PyObjectRef as DictProtocol>::get_item, (&obj, k, &heap), got) ==> {
            &&& got is Some == heap@[d@ as int].payload->entries.contains_key(k@)
            &&& got is Some ==> got->0 == heap@[d@ as int].payload->entries[k@].1
        },
        obj == d
            && call_ensures(<PyObjectRef as DictProtocol>::contains_key, (&obj, k, &heap), held)
            ==> held == heap@[d@ as int].payload->entries.contains_key(k@),
{
    lemma_leads_to(heap@, obj, d);
}

/// A value that was set under a key is read back, also through any other object
/// that leads to the same `dict` object, and what is read under any other key is
/// what was read before.
pub proof fn law_set_item_is_read_back(
    ctx: &mut PyContext,
    obj: PyObjectRef,
    other: PyObjectRef,
    d: PyObjectRef,
    key: &str,
    v: PyObjectRef,
    k: &str,
    before: Option<PyObjectRef>,
    after: Option<PyObjectRef>,
)
    requires
        old(ctx).wf(),
        leads_to(old(ctx).heap@, obj, d),
        leads_to(old(ctx).heap@, other, d),
        call_ensures(<PyObjectRef as DictProtocol>::set_item, (&obj, ctx, key, v), ()),
        call_ensures(
            <PyObjectRef as DictProtocol>::get_item,
            (&other, k, &old(ctx).heap),
            before,
        ),
        call_ensures(
            <PyObjectRef as DictProtocol>::get_item,
            (&other, k, &final(ctx).heap),
            after,
        ),
    ensures
        leads_to(final(ctx).heap@, other, d),
        k@ == key@ ==> after == Some(v),
        k@ != key@ ==> after == before,
{
    lemma_leads_to(old(ctx).heap@, obj, d);
    lemma_leads_to(old(ctx).heap@, other, d);
    lemma_leads_stays(old(ctx).heap@, final(ctx).heap@, other, d);
    lemma_leads_to(final(ctx).heap@, other, d);
    lemma_led_to(old(ctx).heap@, other, d);
}

proof fn lemma_leads_stays(h: HeapModel, after: HeapModel, r: PyObjectRef, d: PyObjectRef)
    requires
        grows(h, after),
        leads_to(h, r, d),
    ensures
        leads_to(after, r, d),
    decreases r@,
{
    assert(after[r@ as int].typ == h[r@ as int].typ);
    if let PayloadModel::Module { name, dict } = h[r@ as int].payload {
        lemma_leads_stays(h, after, dict, d);
    }
}

proof fn lemma_led_to(h: HeapModel, r: PyObjectRef, d: PyObjectRef)
    requires
        leads_to(h, r, d),
    ensures
        d@ < h.len(),
        h[d@ as int].payload is Dict,
    decreases r@,
{
    if let PayloadModel::Module { name, dict } = h[r@ as int].payload {
        lemma_led_to(h, dict, d);
    }
}

/// Setting a value under a key changes the `dict` object that the object leads
/// to, under that key only, and adds one `str` object with the text of the key,
/// which becomes the key. All other objects, and the attributes of that one,
/// stay.
pub proof fn law_set_item_changes(
    ctx: &mut PyContext,
    obj: PyObjectRef,
    d: PyObjectRef,
    key: &str,
    v: PyObjectRef,
)
    requires
        old(ctx).wf(),
        leads_to(old(ctx).heap@, obj, d),
        call_ensures(<PyObjectRef as DictProtocol>::set_item, (&obj, ctx, key, v), ()) || (obj == d
            && call_ensures(PyContext::set_item, (ctx, &obj, key, v), ())),
    ensures
        *final(ctx) == (PyContext { heap: final(ctx).heap, ..*old(ctx) }),
        final(ctx).heap@.len() == old(ctx).heap@.len() + 1,
        forall|i: int|
            0 <= i < old(ctx).heap@.len() && i != d@ ==> #[trigger] final(ctx).heap@[i] == old(
                ctx
            ).heap@[i],
        final(ctx).heap@[d@ as int].typ == old(ctx).heap@[d@ as int].typ,
        final(ctx).heap@[d@ as int].dict == old(ctx).heap@[d@ as int].dict,
        final(ctx).heap@[d@ as int].payload is Dict,
        final(ctx).heap@[d@ as int].payload->entries.dom() == old(
            ctx
        ).heap@[d@ as int].payload->entries.dom().insert(key@),
        final(ctx).heap@[d@ as int].payload->entries[key@].1 == v,
        final(ctx).heap@[d@ as int].payload->entries[key@].0@ == old(ctx).heap@.len(),
        forall|k: Seq<char>|
            k != key@ && old(ctx).heap@[d@ as int].payload->entries.contains_key(k)
                ==> #[trigger] final(ctx).heap@[d@ as int].payload->entries[k] == old(
                ctx
            ).heap@[d@ as int].payload->entries[k],
        final(ctx).heap@.last().typ == old(ctx).str_type@,
        final(ctx).heap@.last().dict == Some(Map::<Seq<char>, PyObjectRef>::empty()),
        final(ctx).heap@.last().payload == (PayloadModel::Str { value: key@ }),
{
    let h = old(ctx).heap@;
    lemma_leads_to(h, obj, d);
    lemma_led_to(h, obj, d);
    lemma_place(final(ctx).heap, h.len());
    assert(final(ctx).heap@[d@ as int].payload->entries.dom()
        =~= h[d@ as int].payload->entries.dom().insert(key@));
}

/// A key that was removed is no longer held; what is held and read under any
/// other key is what was before. No other object changes.
pub proof fn law_removed_item_is_gone(
    heap: &mut PyHeap,
    d: PyObjectRef,
    key: &str,
    k: &str,
    before: Option<PyObjectRef>,
    after: Option<PyObjectRef>,
    held: bool,
)
    requires
        leads_to(old(heap)@, d, d),
        call_ensures(<PyObjectRef as DictProtocol>::del_item, (&d, key, heap), ()),
        call_ensures(<PyObjectRef as DictProtocol>::get_item, (&d, k, old(heap)), before),
        call_ensures(<PyObjectRef as DictProtocol>::get_item, (&d, k, final(heap)), after),
        call_ensures(<PyObjectRef as DictProtocol>::contains_key, (&d, k, final(heap)), held),
    ensures
        k@ == key@ ==> after is None && !held,
        k@ != key@ ==> after == before && held == before is Some,
        final(heap)@.len() == old(heap)@.len(),
        forall|i: int|
            0 <= i < old(heap)@.len() && i != d@ ==> #[trigger] final(heap)@[i] == old(heap)@[i],
        final(heap)@[d@ as int].typ == old(heap)@[d@ as int].typ,
        final(heap)@[d@ as int].dict == old(heap)@[d@ as int].dict,
        final(heap)@[d@ as int].payload is Dict,
        final(heap)@[d@ as int].payload->entries == old(heap)@[d@ as int].payload->entries.remove(
            key@,
        ),
{
    lemma_led_to(old(heap)@, d, d);
}

/// The pairs are the keys with their values: there is one for every key that is
/// held, and no other.
pub proof fn law_pairs_are_all_items(
    heap: PyHeap,
    obj: PyObjectRef,
    d: PyObjectRef,
    pairs: Vec<(PyObjectRef, PyObjectRef)>,
)
    requires
        leads_to(heap@, obj, d),
        call_ensures(<PyObjectRef as DictProtocol>::get_key_value_pairs, (&obj, &heap), pairs),
    ensures
        exists|keys: Seq<Seq<char>>|
            {
                &&& #[trigger] keys.no_duplicates()
                &&& keys.len() == pairs@.len()
                &&& forall|k: Seq<char>|
                    keys.contains(k) == #[trigger] heap@[d@
                        as int].payload->entries.contains_key(k)
                &&& forall|i: int|
                    0 <= i < keys.len() ==> pairs@[i] == heap@[d@ as int].payload->entries[
                    #[trigger] keys[i]]
            },
{
    lemma_leads_to(heap@, obj, d);
    let entries = heap@[d@ as int].payload->entries;
    let keys = choose|keys: Seq<Seq<char>>| #[trigger]
        lists_map(entries, keys, pairs@);
    assert(keys.no_duplicates());
    assert forall|k: Seq<char>| keys.contains(k) == #[trigger] entries.contains_key(k) by {
        assert(keys.to_set().contains(k) == keys.contains(k));
        assert(keys.to_set().contains(k) == entries.dom().contains(k));
    }
}

/// Attributes can be set on a module that leads to a `dict` object, and on any
/// other object that has a place for them.
pub proof fn law_attributes_can_be_set(
    heap: PyHeap,
    obj: PyObjectRef,
    b: bool,
    found: Option<PyObjectRef>,
)
    requires
        call_ensures(is_attr_settable, (&obj, &heap), b),
        call_ensures(find_item_dict, (&obj, &heap), found),
    ensures
        b == (obj@ < heap@.len() && if heap@[obj@ as int].payload is Module {
            found is Some
        } else {
            heap@[obj@ as int].dict is Some
        }),
{
}

/// An attribute that is set on an object that is no module is its attribute from
/// then on. Its other attributes, what it carries and all other objects stay, and
/// no object is added.
pub proof fn law_set_attribute_changes(
    ctx: &mut PyContext,
    obj: PyObjectRef,
    name: &str,
    value: PyObjectRef,
)
    requires
        obj@ < old(ctx).heap@.len(),
        !(old(ctx).heap@[obj@ as int].payload is Module),
        old(ctx).heap@[obj@ as int].dict is Some,
        call_ensures(PyContext::set_object_attr, (ctx, &obj, name, value), ()) || call_ensures(
            PyContext::set_attr::<&PyObjectRef, PyObjectRef>,
            (ctx, &obj, name, value),
            (),
        ),
    ensures
        *final(ctx) == (PyContext { heap: final(ctx).heap, ..*old(ctx) }),
        final(ctx).heap@.len() == old(ctx).heap@.len(),
        forall|i: int|
            0 <= i < old(ctx).heap@.len() && i != obj@ ==> #[trigger] final(ctx).heap@[i] == old(
                ctx
            ).heap@[i],
        final(ctx).heap@[obj@ as int].typ == old(ctx).heap@[obj@ as int].typ,
        final(ctx).heap@[obj@ as int].payload == old(ctx).heap@[obj@ as int].payload,
        final(ctx).heap@[obj@ as int].dict is Some,
        final(ctx).heap@[obj@ as int].dict->0 == old(ctx).heap@[obj@ as int].dict->0.insert(
            name@,
            value,
        ),
{
}

/// An attribute that is set on a module is a variable of it from then on: it is
/// what setting an item does, and it is read as an item.
pub proof fn law_set_module_attribute_changes(
    ctx: &mut PyContext,
    module: PyObjectRef,
    d: PyObjectRef,
    name: &str,
    value: PyObjectRef,
    got: Option<PyObjectRef>,
)
    requires
        old(ctx).wf(),
        leads_to(old(ctx).heap@, module, d),
        old(ctx).heap@[module@ as int].payload is Module,
        call_ensures(PyContext::set_object_attr, (ctx, &module, name, value), ()) || call_ensures(
            PyContext::set_attr::<&PyObjectRef, PyObjectRef>,
            (ctx, &module, name, value),
            (),
        ),
        call_ensures(
            <PyObjectRef as DictProtocol>::get_item,
            (&module, name, &final(ctx).heap),
            got,
        ),
    ensures
        *final(ctx) == (PyContext { heap: final(ctx).heap, ..*old(ctx) }),
        got == Some(value),
        final(ctx).heap@.len() == old(ctx).heap@.len() + 1,
        forall|i: int|
            0 <= i < old(ctx).heap@.len() && i != d@ ==> #[trigger] final(ctx).heap@[i] == old(
                ctx
            ).heap@[i],
        final(ctx).heap@[d@ as int].dict == old(ctx).heap@[d@ as int].dict,
        final(ctx).heap@[d@ as int].typ == old(ctx).heap@[d@ as int].typ,
        final(ctx).heap@[d@ as int].payload->entries.dom() == old(
            ctx
        ).heap@[d@ as int].payload->entries.dom().insert(name@),
        forall|k: Seq<char>|
            k != name@ && old(ctx).heap@[d@ as int].payload->entries.contains_key(k)
                ==> #[trigger] final(ctx).heap@[d@ as int].payload->entries[k] == old(
                ctx
            ).heap@[d@ as int].payload->entries[k],
{
    let h = old(ctx).heap@;
    lemma_leads_to(h, module, d);
    lemma_led_to(h, module, d);
    lemma_leads_stays(h, final(ctx).heap@, module, d);
    lemma_leads_to(final(ctx).heap@, module, d);
    lemma_led_to(final(ctx).heap@, module, d);
    assert(final(ctx).heap@[d@ as int].payload->entries.dom()
        =~= h[d@ as int].payload->entries.dom().insert(name@));
}

/// A map with string keys gives back what was put in last under a key, keeps what
/// it has under all other keys, and forgets what is removed.
pub proof fn law_string_map<V>(
    m: &mut StrMap<V>,
    key: String,
    name: &str,
    value: V,
    k: &str,
    before: Option<&V>,
    after: Option<&V>,
    held: bool,
    removed: Option<V>,
)
    requires
        call_ensures(StrMap::<V>::get, (old(m), k), before),
        call_ensures(StrMap::<V>::get, (final(m), k), after),
        call_ensures(StrMap::<V>::contains_key, (final(m), k), held),
    ensures
        held == after is Some,
        call_ensures(StrMap::<V>::insert, (m, key, value), ()) && k@ == key@ ==> after is Some
            && *after->0 == value,
        call_ensures(StrMap::<V>::insert, (m, key, value), ()) && k@ != key@ ==> after == before,
        call_ensures(StrMap::<V>::remove, (m, name), removed) && k@ == name@ ==> after is None
            && removed is Some == before is Some && (removed is Some ==> removed->0
            == *before->0),
        call_ensures(StrMap::<V>::remove, (m, name), removed) && k@ != name@ ==> after == before,
{
}

/// The values of a map are what it has under its keys: there is one for every key,
/// and no other.
pub proof fn law_string_map_values<V: Copy>(m: StrMap<V>, values: Vec<V>)
    requires
        call_ensures(StrMap::<V>::values, (&m,), values),
    ensures
        exists|keys: Seq<Seq<char>>|
            {
                &&& #[trigger] keys.no_duplicates()
                &&& keys.len() == values@.len()
                &&& forall|k: Seq<char>| keys.contains(k) == #[trigger] m@.contains_key(k)
                &&& forall|i: int| 0 <= i < keys.len() ==> values@[i] == m@[#[trigger] keys[i]]
            },
{
    let keys = choose|keys: Seq<Seq<char>>| #[trigger]
        lists_map(m@, keys, values@);
    assert(keys.no_duplicates());
    assert forall|k: Seq<char>| keys.contains(k) == #[trigger] m@.contains_key(k) by {
        assert(keys.to_set().contains(k) == keys.contains(k));
        assert(keys.to_set().contains(k) == m@.dom().contains(k));
    }
}

/// A new map has nothing under any key.
pub proof fn law_new_string_map<V>(m: StrMap<V>, k: &str, got: Option<&V>)
    requires
        call_ensures(StrMap::<V>::new, (), m),
        call_ensures(StrMap::<V>::get, (&m, k), got),
    ensures
        got is None,
{
}

} // verus!
