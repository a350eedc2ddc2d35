//! The items of `dict` objects and of modules.
use crate::context::{keeps_builtins, lemma_builtins_stay, PyContext};
use crate::object::{
    entries_of, grows, in_heap, lemma_ref_at, object_at, object_fits, plain_object, ref_at,
    with_entries, HeapModel, IdProtocol, PyHeap, PyObjectRef,
};
use crate::payload::{PayloadModel, PyDict, PyModule};
use crate::strmap::lists_map;
use vstd::prelude::*;

verus! {

/// The `dict` object that holds the items of an object: a `dict` object holds
/// its own, those of a module are held by what holds its variables.
pub open spec fn item_dict(h: HeapModel, r: PyObjectRef) -> Option<PyObjectRef>
    decreases r@,
{
    if !in_heap(h, r) {
        None
    } else {
        match object_at(h, r).payload {
            PayloadModel::Dict { entries } => Some(r),
            PayloadModel::Module { name, dict } if dict@ < r@ => item_dict(h, dict),
            _ => None,
        }
    }
}

/// What holds the items is a `dict` object.
pub proof fn lemma_item_dict(h: HeapModel, r: PyObjectRef)
    requires
        item_dict(h, r) is Some,
    ensures
        in_heap(h, item_dict(h, r)->0),
        object_at(h, item_dict(h, r)->0).payload is Dict,
    decreases r@,
{
    if object_at(h, r).payload is Module {
        lemma_item_dict(h, object_at(h, r).payload->dict);
    }
}

/// The items of an object.
pub open spec fn items_of(h: HeapModel, r: PyObjectRef) -> Map<
    Seq<char>,
    (PyObjectRef, PyObjectRef),
> {
    entries_of(h, item_dict(h, r)->0)
}

/// The heap after the item `key` of the `dict` object `d` has been set: there
/// is a new `str` object for the key.
pub open spec fn with_item(
    h: HeapModel,
    str_type: PyObjectRef,
    d: PyObjectRef,
    key: Seq<char>,
    value: PyObjectRef,
) -> HeapModel {
    let keyed = h.push(plain_object(str_type, PayloadModel::Str { value: key }));
    with_entries(keyed, d, entries_of(h, d).insert(key, (ref_at(h.len()), value)))
}

/// Things that have items under strings.
pub trait DictProtocol: IdProtocol {
    /// The `dict` object has an item under `k`.
    fn contains_key(&self, k: &str, heap: &PyHeap) -> (r: bool)
        requires
            in_heap(heap@, self.identity()),
            object_at(heap@, self.identity()).payload is Dict,
        ensures
            r == entries_of(heap@, self.identity()).contains_key(k@),
    ;

    /// The value under `k`.
    fn get_item(&self, k: &str, heap: &PyHeap) -> (r: Option<PyObjectRef>)
        requires
            heap.wf(),
            item_dict(heap@, self.identity()) is Some,
        ensures
            r == (if items_of(heap@, self.identity()).contains_key(k@) {
                Some(items_of(heap@, self.identity())[k@].1)
            } else {
                None
            }),
    ;

    /// The keys with their values, each once, in an order that is not
    /// determined.
    fn get_key_value_pairs(&self, heap: &PyHeap) -> (r: Vec<(PyObjectRef, PyObjectRef)>)
        requires
            heap.wf(),
            item_dict(heap@, self.identity()) is Some,
        ensures
            exists|keys: Seq<Seq<char>>| #[trigger]
                lists_map(items_of(heap@, self.identity()), keys, r@),
    ;

    /// Sets the value under `key`.
    fn set_item(&self, ctx: &mut PyContext, key: &str, v: PyObjectRef)
        requires
            old(ctx).wf(),
            item_dict(old(ctx).heap@, self.identity()) is Some,
            in_heap(old(ctx).heap@, v),
        ensures
            final(ctx).wf(),
            keeps_builtins(*old(ctx), *final(ctx)),
            final(ctx).heap@ == with_item(
                old(ctx).heap@,
                old(ctx).str_type@,
                item_dict(old(ctx).heap@, self.identity())->0,
                key@,
                v,
            ),
            grows(old(ctx).heap@, final(ctx).heap@),
    ;

    /// Removes the value under `key` from the `dict` object.
    fn del_item(&self, key: &str, heap: &mut PyHeap)
        requires
            old(heap).wf(),
            in_heap(old(heap)@, self.identity()),
            object_at(old(heap)@, self.identity()).payload is Dict,
            entries_of(old(heap)@, self.identity()).contains_key(key@),
        ensures
            final(heap).wf(),
            final(heap)@ == with_entries(
                old(heap)@,
                self.identity(),
                entries_of(old(heap)@, self.identity()).remove(key@),
            ),
            grows(old(heap)@, final(heap)@),
    ;
}

/// Binds `key` in the `dict` object `d`.
pub(crate) fn set_item_in_dict(d: &PyObjectRef, ctx: &mut PyContext, key: &str, v: PyObjectRef)
    requires
        old(ctx).wf(),
        in_heap(old(ctx).heap@, *d),
        object_at(old(ctx).heap@, *d).payload is Dict,
        in_heap(old(ctx).heap@, v),
    ensures
        final(ctx).wf(),
        keeps_builtins(*old(ctx), *final(ctx)),
        final(ctx).heap@ == with_item(old(ctx).heap@, old(ctx).str_type@, *d, key@, v),
        grows(old(ctx).heap@, final(ctx).heap@),
{
    let k = ctx.new_str(key.to_owned());
    let ghost keyed = *ctx;
    proof {
        lemma_ref_at(k);
    }
    ctx.heap.insert_entry(d, key.to_owned(), (k, v));
    proof {
        lemma_builtins_stay(keyed, keyed.heap@, ctx.heap@);
    }
}

/// Finds the `dict` object that holds the items of an object, if it has items.
pub fn find_item_dict(obj: &PyObjectRef, heap: &PyHeap) -> (r: Option<PyObjectRef>)
    requires
        heap.wf(),
    ensures
        r == item_dict(heap@, *obj),
    decreases obj@,
{
    if !heap.holds(obj) {
        None
    } else if heap.get(obj).payload_is::<PyDict>() {
        Some(*obj)
    } else if let Some(module) = heap.get(obj).payload::<PyModule>() {
        assert(object_fits(heap@, obj@, heap@[obj@ as int]));
        find_item_dict(&module.dict, heap)
    } else {
        None
    }
}

impl DictProtocol for PyObjectRef {
    fn contains_key(&self, k: &str, heap: &PyHeap) -> bool {
        match heap.get(self).payload::<PyDict>() {
            Some(dict) => dict.entries.contains_key(k),
            None => vstd::pervasive::unreached(),
        }
    }

    fn get_item(&self, k: &str, heap: &PyHeap) -> Option<PyObjectRef>
        decreases self@,
    {
        if let Some(dict) = heap.get(self).payload::<PyDict>() {
            match dict.entries.get(k) {
                Some(entry) => Some(entry.1),
                None => None,
            }
        } else if let Some(module) = heap.get(self).payload::<PyModule>() {
            assert(object_fits(heap@, self@, heap@[self@ as int]));
            module.dict.get_item(k, heap)
        } else {
            vstd::pervasive::unreached()
        }
    }

    fn get_key_value_pairs(&self, heap: &PyHeap) -> Vec<(PyObjectRef, PyObjectRef)>
        decreases self@,
    {
        if let Some(dict) = heap.get(self).payload::<PyDict>() {
            assert(items_of(heap@, self.identity()) == dict.entries@);
            dict.entries.values()
        } else if let Some(module) = heap.get(self).payload::<PyModule>() {
            assert(object_fits(heap@, self@, heap@[self@ as int]));
            assert(items_of(heap@, self.identity()) == items_of(heap@, module.dict.identity()));
            module.dict.get_key_value_pairs(heap)
        } else {
            vstd::pervasive::unreached()
        }
    }

    fn set_item(&self, ctx: &mut PyContext, key: &str, v: PyObjectRef)
        decreases self@,
    {
        if ctx.heap.get(self).payload_is::<PyDict>() {
            set_item_in_dict(self, ctx, key, v)
        } else if let Some(module) = ctx.heap.get(self).payload::<PyModule>() {
            assert(object_fits(ctx.heap@, self@, ctx.heap@[self@ as int]));
            let dict = module.dict;
            dict.set_item(ctx, key, v)
        } else {
            vstd::pervasive::unreached()
        }
    }

    fn del_item(&self, key: &str, heap: &mut PyHeap) {
        heap.remove_entry(self, key);
    }
}

} // verus!
