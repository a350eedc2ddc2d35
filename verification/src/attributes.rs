//! Setting the items and the attributes of objects.
use crate::context::{keeps_builtins, lemma_builtins_stay, PyContext};
use crate::object::{
    grows, in_heap, object_at, object_fits, with_attribute, HeapModel, PyHeap, PyObjectRef,
};
use crate::objdict::{find_item_dict, item_dict, set_item_in_dict, with_item, DictProtocol};
use crate::payload::PyModule;
use vstd::prelude::*;

verus! {

/// Attributes of the object can be set: it is a module whose variables are in
/// a `dict` object, or another object that has a place for attributes.
pub open spec fn can_set_attr(h: HeapModel, obj: PyObjectRef) -> bool {
    in_heap(h, obj) && if object_at(h, obj).payload is Module {
        item_dict(h, obj) is Some
    } else {
        object_at(h, obj).dict is Some
    }
}

/// The heap after an attribute has been set: that of a module becomes one of
/// its variables.
pub open spec fn with_attr(
    h: HeapModel,
    str_type: PyObjectRef,
    obj: PyObjectRef,
    name: Seq<char>,
    value: PyObjectRef,
) -> HeapModel {
    if object_at(h, obj).payload is Module {
        with_item(h, str_type, item_dict(h, obj)->0, name, value)
    } else {
        with_attribute(h, obj, name, value)
    }
}

/// Attributes of the object can be set.
pub fn is_attr_settable(obj: &PyObjectRef, heap: &PyHeap) -> (r: bool)
    requires
        heap.wf(),
    ensures
        r == can_set_attr(heap@, *obj),
{
    if !heap.holds(obj) {
        false
    } else if heap.get(obj).payload_is::<PyModule>() {
        find_item_dict(obj, heap).is_some()
    } else {
        heap.get(obj).dict.is_some()
    }
}

impl PyContext {
    /// Sets the value under `key` of a `dict` object.
    pub fn set_item(&mut self, obj: &PyObjectRef, key: &str, v: PyObjectRef)
        requires
            old(self).wf(),
            in_heap(old(self).heap@, *obj),
            object_at(old(self).heap@, *obj).payload is Dict,
            in_heap(old(self).heap@, v),
        ensures
            final(self).wf(),
            keeps_builtins(*old(self), *final(self)),
            final(self).heap@ == with_item(
                old(self).heap@,
                old(self).str_type@,
                *obj,
                key@,
                v,
            ),
            grows(old(self).heap@, final(self).heap@),
    {
        set_item_in_dict(obj, self, key, v);
    }

    /// Sets an attribute of an object.
    pub fn set_attr<'a, T: Into<&'a PyObjectRef>, V: Into<PyObjectRef>>(
        &mut self,
        obj: T,
        attr_name: &str,
        value: V,
    )
        requires
            old(self).wf(),
            forall|o: &'a PyObjectRef| #[trigger]
                call_ensures(<T as Into<&'a PyObjectRef>>::into, (obj,), o) ==> can_set_attr(
                    old(self).heap@,
                    *o,
                ),
            forall|v: PyObjectRef| #[trigger]
                call_ensures(<V as Into<PyObjectRef>>::into, (value,), v) ==> in_heap(
                    old(self).heap@,
                    v,
                ),
        ensures
            final(self).wf(),
            keeps_builtins(*old(self), *final(self)),
            exists|o: &'a PyObjectRef, v: PyObjectRef|
                #[trigger] call_ensures(<T as Into<&'a PyObjectRef>>::into, (obj,), o)
                    && #[trigger] call_ensures(<V as Into<PyObjectRef>>::into, (value,), v)
                    && final(self).heap@ == with_attr(
                    old(self).heap@,
                    old(self).str_type@,
                    *o,
                    attr_name@,
                    v,
                ),
            grows(old(self).heap@, final(self).heap@),
    {
        let obj: &PyObjectRef = obj.into();
        let value: PyObjectRef = value.into();
        self.set_object_attr(obj, attr_name, value)
    }

    /// Sets an attribute of an object that is given by a reference.
    pub fn set_object_attr(&mut self, obj: &PyObjectRef, attr_name: &str, value: PyObjectRef)
        requires
            old(self).wf(),
            can_set_attr(old(self).heap@, *obj),
            in_heap(old(self).heap@, value),
        ensures
            final(self).wf(),
            keeps_builtins(*old(self), *final(self)),
            final(self).heap@ == with_attr(
                old(self).heap@,
                old(self).str_type@,
                *obj,
                attr_name@,
                value,
            ),
            grows(old(self).heap@, final(self).heap@),
    {
        if let Some(module) = self.heap.get(obj).payload::<PyModule>() {
            assert(object_fits(self.heap@, obj@, self.heap@[obj@ as int]));
            let dict = module.dict;
            dict.set_item(self, attr_name, value);
        } else {
            self.heap.insert_attribute(obj, attr_name.to_owned(), value);
            proof {
                lemma_builtins_stay(*old(self), old(self).heap@, self.heap@);
            }
        }
    }
}

} // verus!
