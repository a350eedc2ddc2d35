//! Objects, references to them, and the heap that they live in.
//!
//! Every object lives in a `PyHeap`, and a reference to an object is its place
//! there. An object stays where it is for as long as its heap lives, so a
//! reference never dangles, and objects can refer to each other in cycles.
use crate::payload::{
    DictContent, Payload, PayloadModel, PyAttributes, PyClass, PyIteratorValue, PyObjectPayload,
};
use crate::strmap::lists_map;
use std::marker::PhantomData;
use vstd::prelude::*;

verus! {

/// The `PyObjectRef` is one of the most used types. It is a reference to a
/// python object. A single python object can have multiple references. Use the
/// `.clone()` method to create a new reference to the same object.
///
/// A reference means something only together with the heap that its object
/// lives in: references that were made in one heap are equal exactly if they
/// refer to the same object, while nothing follows from comparing references
/// that were made in different heaps.
#[derive(Debug, PartialEq, Eq, Structural)]
pub struct PyObjectRef {
    id: usize,
}

impl PyObjectRef {
    /// The place of the object in its heap.
    pub closed spec fn view(&self) -> nat {
        self.id as nat
    }
}

impl Clone for PyObjectRef {
    fn clone(&self) -> (r: PyObjectRef)
        ensures
            r == *self,
    {
        *self
    }
}

impl Copy for PyObjectRef {

}

/// Use this type for function which return a python object or and exception.
/// Both the python object and the python exception are `PyObjectRef` types
/// since exceptions are also python objects.
pub type PyResult<T = PyObjectRef> = Result<T, PyObjectRef>;

/// References to the same place are the same reference.
pub proof fn lemma_same_place(a: PyObjectRef, b: PyObjectRef)
    ensures
        a@ == b@ ==> a == b,
{
}

/// A reference to a Python object whose payload is of type `T`.
///
/// Invariant: the object always has a payload of type `T` (`valid`). Every
/// function that makes a `PyRef<T>` makes sure of it, and it stays so whatever
/// is done to the heap.
///
/// Note that a `PyRef<T>` can only deref to a shared / immutable reference.
/// It is the payload type's responsibility to handle mutability if required:
/// what of a payload can change is changed through the heap, as the position of
/// an iterator is by `PyHeap::set_position`.
///
/// A `PyRef<T>` can be directly returned from a built-in function to handle
/// situations (such as when implementing in-place methods such as `__iadd__`)
/// where a reference to the same object must be returned.
#[derive(Debug)]
pub struct PyRef<T> {
    obj: PyObjectRef,
    _payload: PhantomData<T>,
}

pub type PyClassRef = PyRef<PyClass>;

impl<T> PyRef<T> {
    /// The reference without its type.
    pub closed spec fn view(&self) -> PyObjectRef {
        self.obj
    }
}

/// Typed references are the same if they are so without their type.
pub broadcast proof fn lemma_same_ref<T>(a: PyRef<T>, b: PyRef<T>)
    ensures
        #[trigger] a@ == #[trigger] b@ ==> a == b,
{
}

impl<T> Clone for PyRef<T> {
    fn clone(&self) -> (r: Self)
        ensures
            r == *self,
    {
        PyRef { obj: self.obj.clone(), _payload: PhantomData }
    }
}

impl<T> Copy for PyRef<T> {

}

/// This is an actual python object. It consists of a `typ` which is the
/// python class, and carries some rust payload optionally. This rust
/// payload can be a rust float or rust int in case of float and int objects.
#[derive(Debug)]
pub struct PyObject<T> {
    pub typ: PyObjectRef,
    pub dict: Option<PyAttributes>,
    pub payload: T,
}

/// The mathematical value of an object.
pub struct ObjectModel {
    pub typ: PyObjectRef,
    pub dict: Option<Map<Seq<char>, PyObjectRef>>,
    pub payload: PayloadModel,
}

/// The mathematical value of a heap: the objects, by their places.
pub type HeapModel = Seq<ObjectModel>;

impl<T> PyObject<T> {
    /// The value of the object, where `payload` is that of its payload.
    pub open spec fn model_with(&self, payload: PayloadModel) -> ObjectModel {
        ObjectModel {
            typ: self.typ,
            dict: match self.dict {
                Some(dict) => Some(dict@),
                None => None,
            },
            payload,
        }
    }
}

impl<T: PyObjectPayload> PyObject<T> {
    /// The value of an object whose payload is of a known type.
    pub open spec fn model(&self) -> ObjectModel {
        self.model_with(self.payload.as_payload()@)
    }
}

impl PyObject<Payload> {
    /// The value of an object whose payload is of any type.
    pub open spec fn view(&self) -> ObjectModel {
        self.model_with(self.payload@)
    }
}

/// The heap holds the object that `r` refers to.
pub open spec fn in_heap(h: HeapModel, r: PyObjectRef) -> bool {
    r@ < h.len()
}

/// The object that `r` refers to.
pub open spec fn object_at(h: HeapModel, r: PyObjectRef) -> ObjectModel {
    h[r@ as int]
}

pub open spec fn is_class(h: HeapModel, r: PyObjectRef) -> bool {
    in_heap(h, r) && object_at(h, r).payload is Class
}

pub open spec fn all_in_heap(h: HeapModel, s: Seq<PyObjectRef>) -> bool {
    forall|i: int| 0 <= i < s.len() ==> in_heap(h, #[trigger] s[i])
}

pub open spec fn all_classes(h: HeapModel, s: Seq<PyClassRef>) -> bool {
    forall|i: int| 0 <= i < s.len() ==> is_class(h, (#[trigger] s[i])@)
}

pub open spec fn attributes_fit(h: HeapModel, dict: Map<Seq<char>, PyObjectRef>) -> bool {
    forall|k: Seq<char>| #[trigger] dict.contains_key(k) ==> in_heap(h, dict[k])
}

pub open spec fn entries_fit(
    h: HeapModel,
    entries: Map<Seq<char>, (PyObjectRef, PyObjectRef)>,
) -> bool {
    forall|k: Seq<char>| #[trigger]
        entries.contains_key(k) ==> in_heap(h, entries[k].0) && in_heap(h, entries[k].1)
}

/// A payload that can stand at place `place` of the heap: it refers to objects
/// of the heap only, a class inherits from classes that were there before it,
/// and the variables of a module are in an object that was there before it.
pub open spec fn payload_fits(h: HeapModel, place: nat, p: PayloadModel) -> bool {
    match p {
        PayloadModel::Class { name, mro } => forall|i: int|
            0 <= i < mro.len() ==> is_class(h, (#[trigger] mro[i])@) && mro[i]@@ < place,
        PayloadModel::Module { name, dict } => in_heap(h, dict) && dict@ < place,
        PayloadModel::Tuple { elements } => all_in_heap(h, elements),
        PayloadModel::List { elements } => all_in_heap(h, elements),
        PayloadModel::SetValue { elements } => all_in_heap(h, elements),
        PayloadModel::Dict { entries } => entries_fit(h, entries),
        PayloadModel::ReadOnlyProperty { getter } => in_heap(h, getter),
        PayloadModel::Frame { code, locals, globals } => {
            in_heap(h, code) && all_in_heap(h, locals) && in_heap(h, globals)
        },
        PayloadModel::Function { code, locals, globals, defaults } => {
            in_heap(h, code) && all_in_heap(h, locals) && in_heap(h, globals) && in_heap(
                h,
                defaults,
            )
        },
        PayloadModel::Method { object, function } => in_heap(h, object) && in_heap(h, function),
        PayloadModel::Iterator { position, iterated_obj } => in_heap(h, iterated_obj),
        _ => true,
    }
}

/// An object that can stand at place `place` of the heap.
pub open spec fn object_fits(h: HeapModel, place: nat, o: ObjectModel) -> bool {
    &&& in_heap(h, o.typ)
    &&& o.dict matches Some(dict) ==> attributes_fit(h, dict)
    &&& payload_fits(h, place, o.payload)
}

/// Every object of the heap refers to objects of the heap only.
pub open spec fn heap_ok(h: HeapModel) -> bool {
    forall|i: int| 0 <= i < h.len() ==> object_fits(h, i as nat, #[trigger] h[i])
}

/// What every operation keeps of a payload: only the entries of a `dict` and
/// the position of an iterator can change.
pub open spec fn payload_kept(p: PayloadModel, after: PayloadModel) -> bool {
    match p {
        PayloadModel::Dict { entries } => after is Dict,
        PayloadModel::Iterator { position, iterated_obj } => {
            after is Iterator && after->iterated_obj == iterated_obj
        },
        _ => after == p,
    }
}

/// What every operation keeps of the objects that are in the heap: they stay
/// where they are and what type they have, and so does what they carry, as far
/// as `payload_kept` says.
pub open spec fn grows(h: HeapModel, after: HeapModel) -> bool {
    &&& h.len() <= after.len()
    &&& forall|i: int|
        0 <= i < h.len() ==> {
            &&& (#[trigger] after[i]).typ == h[i].typ
            &&& after[i].dict is Some == h[i].dict is Some
            &&& payload_kept(h[i].payload, after[i].payload)
        }
}

/// What fits into a heap fits into it after it has grown.
pub proof fn lemma_fits_after_growth(h: HeapModel, after: HeapModel, place: nat, o: ObjectModel)
    requires
        grows(h, after),
        object_fits(h, place, o),
    ensures
        object_fits(after, place, o),
{
    assert forall|r: PyObjectRef| is_class(h, r) implies is_class(after, r) by {
        assert(after[r@ as int].payload == h[r@ as int].payload);
    }
}

/// A heap is still in order after an object was put at its end.
pub proof fn lemma_push_ok(h: HeapModel, o: ObjectModel)
    requires
        heap_ok(h),
        object_fits(h, h.len(), o),
    ensures
        heap_ok(h.push(o)),
        grows(h, h.push(o)),
{
    let after = h.push(o);
    assert(grows(h, after));
    assert forall|i: int| 0 <= i < after.len() implies object_fits(
        after,
        i as nat,
        #[trigger] after[i],
    ) by {
        if i < h.len() {
            assert(object_fits(h, i as nat, h[i]));
            lemma_fits_after_growth(h, after, i as nat, h[i]);
        } else {
            lemma_fits_after_growth(h, after, h.len(), o);
        }
    }
}

/// A heap is still in order after the attributes or the `dict` entries of an
/// object have changed.
pub proof fn lemma_update_ok(h: HeapModel, place: int, o: ObjectModel)
    requires
        heap_ok(h),
        0 <= place < h.len(),
        grows(h, h.update(place, o)),
        object_fits(h, place as nat, o),
    ensures
        heap_ok(h.update(place, o)),
{
    let after = h.update(place, o);
    assert forall|i: int| 0 <= i < after.len() implies object_fits(
        after,
        i as nat,
        #[trigger] after[i],
    ) by {
        if i != place {
            assert(object_fits(h, i as nat, h[i]));
            lemma_fits_after_growth(h, after, i as nat, h[i]);
        } else {
            lemma_fits_after_growth(h, after, place as nat, o);
        }
    }
}

/// The place where all objects live.
#[derive(Debug)]
pub struct PyHeap {
    objects: Vec<PyObject<Payload>>,
}

impl PyHeap {
    /// The objects, by their places.
    pub closed spec fn view(&self) -> HeapModel {
        self.objects@.map_values(|o: PyObject<Payload>| o@)
    }

    /// Every object of the heap refers to objects of the heap only.
    pub open spec fn wf(&self) -> bool {
        heap_ok(self@)
    }

    /// The object that `r` refers to.
    pub fn get(&self, r: &PyObjectRef) -> (o: &PyObject<Payload>)
        requires
            in_heap(self@, *r),
        ensures
            o@ == object_at(self@, *r),
    {
        &self.objects[r.id]
    }

    /// The heap holds the object that `r` refers to.
    pub fn holds(&self, r: &PyObjectRef) -> (b: bool)
        ensures
            b == in_heap(self@, *r),
    {
        r.id < self.objects.len()
    }

    /// The heap holds all these objects.
    pub fn holds_all(&self, refs: &Vec<PyObjectRef>) -> (b: bool)
        ensures
            b == all_in_heap(self@, refs@),
    {
        let mut i: usize = 0;
        while i < refs.len()
            invariant
                i <= refs.len(),
                forall|j: int| 0 <= j < i ==> in_heap(self@, #[trigger] refs@[j]),
            decreases refs.len() - i,
        {
            if !self.holds(&refs[i]) {
                assert(!in_heap(self@, refs@[i as int]));
                return false;
            }
            i = i + 1;
        }
        true
    }

    /// The heap holds all these objects, and they are classes.
    pub fn holds_classes(&self, refs: &Vec<PyClassRef>) -> (b: bool)
        ensures
            b == (forall|i: int| 0 <= i < refs.len() ==> is_class(self@, (#[trigger] refs@[i])@)),
            b == all_classes(self@, refs@),
    {
        let mut i: usize = 0;
        while i < refs.len()
            invariant
                i <= refs.len(),
                forall|j: int| 0 <= j < i ==> is_class(self@, (#[trigger] refs@[j])@),
            decreases refs.len() - i,
        {
            let known = self.holds(&refs[i].obj);
            if !known || !matches!(self.get(&refs[i].obj).payload, Payload::Class(_)) {
                assert(!is_class(self@, refs@[i as int]@));
                return false;
            }
            i = i + 1;
        }
        true
    }

    /// The heap holds the keys and the values of these entries.
    pub fn holds_entries(&self, entries: &DictContent) -> (b: bool)
        ensures
            b == entries_fit(self@, entries@),
    {
        let pairs = entries.values();
        let ghost keys = choose|keys: Seq<Seq<char>>| lists_map(entries@, keys, pairs@);
        let mut i: usize = 0;
        while i < pairs.len()
            invariant
                i <= pairs.len(),
                lists_map(entries@, keys, pairs@),
                forall|j: int| 0 <= j < i ==> in_heap(self@, (#[trigger] pairs@[j]).0) && in_heap(
                    self@,
                    pairs@[j].1,
                ),
            decreases pairs.len() - i,
        {
            if !self.holds(&pairs[i].0) || !self.holds(&pairs[i].1) {
                proof {
                    assert(keys.to_set().contains(keys[i as int]));
                    assert(entries@.contains_key(keys[i as int]));
                }
                return false;
            }
            i = i + 1;
        }
        proof {
            assert forall|k: Seq<char>| #[trigger] entries@.contains_key(k) implies in_heap(
                self@,
                entries@[k].0,
            ) && in_heap(self@, entries@[k].1) by {
                assert(keys.to_set().contains(k));
                let j = choose|j: int| 0 <= j < keys.len() && keys[j] == k;
                assert(pairs@[j] == entries@[keys[j]]);
            }
        }
        true
    }

    /// Puts an object at the end of the heap.
    fn push(&mut self, o: PyObject<Payload>) -> (r: PyObjectRef)
        ensures
            r@ == old(self)@.len(),
            final(self)@ == old(self)@.push(o@),
    {
        let r = PyObjectRef { id: self.objects.len() };
        self.objects.push(o);
        assert(self@ =~= old(self)@.push(o@));
        r
    }

    /// Sets an attribute of an object.
    pub(crate) fn insert_attribute(&mut self, r: &PyObjectRef, name: String, value: PyObjectRef)
        requires
            old(self).wf(),
            in_heap(old(self)@, *r),
            object_at(old(self)@, *r).dict is Some,
            in_heap(old(self)@, value),
        ensures
            final(self).wf(),
            final(self)@ == with_attribute(old(self)@, *r, name@, value),
            grows(old(self)@, final(self)@),
    {
        let ghost k = name@;
        let ghost o = object_at(self@, *r);
        let ghost place = r@ as int;
        if let Some(dict) = &mut self.objects[r.id].dict {
            dict.insert(name, value);
        }
        proof {
            let after = with_attribute(old(self)@, *r, k, value);
            assert(self@ =~= after);
            assert(object_fits(old(self)@, r@, old(self)@[place]));
            lemma_update_ok(old(self)@, place, after[place]);
        }
    }

    /// Binds a key of a `dict` object.
    pub(crate) fn insert_entry(
        &mut self,
        r: &PyObjectRef,
        key: String,
        entry: (PyObjectRef, PyObjectRef),
    )
        requires
            old(self).wf(),
            in_heap(old(self)@, *r),
            object_at(old(self)@, *r).payload is Dict,
            in_heap(old(self)@, entry.0),
            in_heap(old(self)@, entry.1),
        ensures
            final(self).wf(),
            final(self)@ == with_entries(
                old(self)@,
                *r,
                entries_of(old(self)@, *r).insert(key@, entry),
            ),
            grows(old(self)@, final(self)@),
    {
        let ghost k = key@;
        let ghost place = r@ as int;
        if let Payload::Dict(dict) = &mut self.objects[r.id].payload {
            dict.entries.insert(key, entry);
        }
        proof {
            let entries = entries_of(old(self)@, *r).insert(k, entry);
            let after = with_entries(old(self)@, *r, entries);
            assert(self@ =~= after);
            assert(object_fits(old(self)@, r@, old(self)@[place]));
            lemma_update_ok(old(self)@, place, after[place]);
        }
    }

    /// Moves an iterator to a position.
    pub fn set_position(&mut self, r: &PyRef<PyIteratorValue>, position: usize)
        requires
            old(self).wf(),
            r.valid(old(self)@),
        ensures
            final(self).wf(),
            final(self)@ == with_position(old(self)@, r@, position as nat),
            grows(old(self)@, final(self)@),
    {
        let ghost place = r@@ as int;
        if let Payload::Iterator(iterator) = &mut self.objects[r.obj.id].payload {
            iterator.position = position;
        }
        proof {
            let after = with_position(old(self)@, r@, position as nat);
            assert(self@ =~= after);
            assert(object_fits(old(self)@, r@@, old(self)@[place]));
            lemma_update_ok(old(self)@, place, after[place]);
        }
    }

    /// Unbinds a key of a `dict` object.
    pub(crate) fn remove_entry(&mut self, r: &PyObjectRef, key: &str)
        requires
            old(self).wf(),
            in_heap(old(self)@, *r),
            object_at(old(self)@, *r).payload is Dict,
        ensures
            final(self).wf(),
            final(self)@ == with_entries(old(self)@, *r, entries_of(old(self)@, *r).remove(key@)),
            grows(old(self)@, final(self)@),
    {
        let ghost place = r@ as int;
        if let Payload::Dict(dict) = &mut self.objects[r.id].payload {
            let _ = dict.entries.remove(key);
        }
        proof {
            let entries = entries_of(old(self)@, *r).remove(key@);
            let after = with_entries(old(self)@, *r, entries);
            assert(self@ =~= after);
            assert(object_fits(old(self)@, r@, old(self)@[place]));
            lemma_update_ok(old(self)@, place, after[place]);
        }
    }
}

/// The heap with an attribute of an object set.
pub open spec fn with_attribute(
    h: HeapModel,
    r: PyObjectRef,
    name: Seq<char>,
    value: PyObjectRef,
) -> HeapModel {
    let o = object_at(h, r);
    h.update(r@ as int, ObjectModel { dict: Some(o.dict->0.insert(name, value)), ..o })
}

/// The entries of a `dict` object.
pub open spec fn entries_of(h: HeapModel, r: PyObjectRef) -> Map<
    Seq<char>,
    (PyObjectRef, PyObjectRef),
> {
    object_at(h, r).payload->entries
}

/// The heap with the entries of a `dict` object replaced.
pub open spec fn with_entries(
    h: HeapModel,
    r: PyObjectRef,
    entries: Map<Seq<char>, (PyObjectRef, PyObjectRef)>,
) -> HeapModel {
    let o = object_at(h, r);
    h.update(r@ as int, ObjectModel { payload: PayloadModel::Dict { entries }, ..o })
}

/// The heap with an iterator moved to a position.
pub open spec fn with_position(h: HeapModel, r: PyObjectRef, position: nat) -> HeapModel {
    let o = object_at(h, r);
    let payload = PayloadModel::Iterator { position, iterated_obj: o.payload->iterated_obj };
    h.update(r@ as int, ObjectModel { payload, ..o })
}

/// `r` refers to the object `o`, which is new, and nothing else has changed.
pub open spec fn allocated(h: HeapModel, after: HeapModel, r: PyObjectRef, o: ObjectModel) -> bool {
    r@ == h.len() && after == h.push(o)
}

/// The reference to the object at `place`.
pub closed spec fn ref_at(place: nat) -> PyObjectRef {
    PyObjectRef { id: place as usize }
}

/// The reference to a place in a heap refers to that place.
pub proof fn lemma_place(heap: PyHeap, place: nat)
    requires
        place < heap@.len(),
    ensures
        ref_at(place)@ == place,
{
    assert(heap@.len() == heap.objects.len());
}

/// A reference is the one to the place that it refers to.
pub proof fn lemma_ref_at(r: PyObjectRef)
    ensures
        ref_at(r@) == r,
{
}

/// An object without attributes, but with a place for them.
pub open spec fn plain_object(typ: PyObjectRef, payload: PayloadModel) -> ObjectModel {
    ObjectModel { typ, dict: Some(Map::empty()), payload }
}

impl<T: PyObjectPayload> PyObject<T> {
    pub fn new(payload: T, typ: PyObjectRef, heap: &mut PyHeap) -> (r: PyObjectRef)
        requires
            old(heap).wf(),
            in_heap(old(heap)@, typ),
            payload_fits(old(heap)@, old(heap)@.len(), payload.as_payload()@),
        ensures
            final(heap).wf(),
            allocated(old(heap)@, final(heap)@, r, plain_object(typ, payload.as_payload()@)),
            grows(old(heap)@, final(heap)@),
            T::is_model(payload.as_payload()@),
    {
        PyObject { typ, dict: Some(PyAttributes::new()), payload }.into_ref(heap)
    }

    pub fn new_without_dict(payload: T, typ: PyObjectRef, heap: &mut PyHeap) -> (r: PyObjectRef)
        requires
            old(heap).wf(),
            in_heap(old(heap)@, typ),
            payload_fits(old(heap)@, old(heap)@.len(), payload.as_payload()@),
        ensures
            final(heap).wf(),
            allocated(
                old(heap)@,
                final(heap)@,
                r,
                (ObjectModel { typ, dict: None, payload: payload.as_payload()@ }),
            ),
            grows(old(heap)@, final(heap)@),
            T::is_model(payload.as_payload()@),
    {
        PyObject { typ, dict: None, payload }.into_ref(heap)
    }

    /// Move this object into a reference object, transferring ownership.
    pub fn into_ref(self, heap: &mut PyHeap) -> (r: PyObjectRef)
        requires
            old(heap).wf(),
            object_fits(old(heap)@, old(heap)@.len(), self.model()),
        ensures
            final(heap).wf(),
            allocated(old(heap)@, final(heap)@, r, self.model()),
            grows(old(heap)@, final(heap)@),
            T::is_model(self.model().payload),
    {
        proof {
            lemma_push_ok(heap@, self.model());
        }
        let o = PyObject { typ: self.typ, dict: self.dict, payload: self.payload.into_payload() };
        heap.push(o)
    }
}

/// Makes the two classes that all others rest on, in a heap of their own:
/// `type` inherits from `object`, and both `type` and `object` are instances
/// of `type`.
pub(crate) fn init_type_hierarchy() -> (r: (PyHeap, PyClassRef, PyClassRef))
    ensures
        r.0.wf(),
        r.0@ == seq![
            plain_object(
                r.1@,
                PayloadModel::Class { name: "object"@, mro: Seq::<PyClassRef>::empty() },
            ),
            plain_object(r.1@, PayloadModel::Class { name: "type"@, mro: seq![r.2] }),
        ],
        r.2@@ == 0,
        r.1@@ == 1,
{
    let object_type = PyObjectRef { id: 0 };
    let type_type = PyObjectRef { id: 1 };
    let object_class = PyClassRef::from_object(object_type);
    let mut mro: Vec<PyClassRef> = Vec::new();
    mro.push(object_class);
    let mut heap = PyHeap { objects: Vec::new() };
    let _ = heap.push(
        PyObject {
            typ: type_type,
            dict: Some(PyAttributes::new()),
            payload: Payload::Class(PyClass { name: "object".to_owned(), mro: Vec::new() }),
        },
    );
    let _ = heap.push(
        PyObject {
            typ: type_type,
            dict: Some(PyAttributes::new()),
            payload: Payload::Class(PyClass { name: "type".to_owned(), mro }),
        },
    );
    let type_class = PyClassRef::from_object(type_type);
    assert(mro@ =~= seq![object_class]);
    (heap, type_class, object_class)
}

impl PyObject<Payload> {
    /// The payload, if it is of type `T`.
    pub fn payload<T: PyObjectPayload>(&self) -> (r: Option<&T>)
        ensures
            r is Some == T::is_model(self.payload@),
            r matches Some(v) ==> v.as_payload() == self.payload,
    {
        T::downcast_ref(&self.payload)
    }

    /// The payload is of type `T`.
    pub fn payload_is<T: PyObjectPayload>(&self) -> (r: bool)
        ensures
            r == T::is_model(self.payload@),
    {
        T::downcast_ref(&self.payload).is_some()
    }
}

/// Things that are the same object if they have the same id.
///
/// An id tells apart the objects of one heap. Objects of two heaps can have the
/// same id.
pub trait IdProtocol {
    /// The object.
    spec fn identity(&self) -> PyObjectRef;

    /// The id of the object among the objects of its heap.
    fn get_id(&self) -> (r: usize)
        ensures
            r == self.identity()@,
    ;
}

/// The comparison that all things with an id have.
pub trait SameObject: IdProtocol {
    /// Both are the same object. They have to be objects of the same heap.
    fn is<T: IdProtocol>(&self, other: &T) -> (r: bool)
        ensures
            r == (self.identity() == other.identity()),
    ;
}

impl<S: IdProtocol> SameObject for S {
    fn is<T: IdProtocol>(&self, other: &T) -> bool {
        proof {
            lemma_same_place(self.identity(), other.identity());
        }
        self.get_id() == other.get_id()
    }
}

impl IdProtocol for PyObjectRef {
    open spec fn identity(&self) -> PyObjectRef {
        *self
    }

    fn get_id(&self) -> usize {
        assert(self.identity() == *self);
        self.id
    }
}

impl<P> IdProtocol for PyRef<P> {
    open spec fn identity(&self) -> PyObjectRef {
        self@
    }

    fn get_id(&self) -> usize {
        assert(self.identity() == self.obj.identity());
        self.obj.get_id()
    }
}

/// Implemented by the references that can be made from any reference that
/// refers to an object of the right kind.
pub trait FromPyObjectRef: Sized {
    /// The object is of the right kind.
    spec fn right_kind(h: HeapModel, r: PyObjectRef) -> bool;

    /// The reference that is made.
    spec fn made_from(r: PyObjectRef) -> Self;

    fn from_pyobj(obj: &PyObjectRef, heap: &PyHeap) -> (r: Self)
        requires
            in_heap(heap@, *obj),
            Self::right_kind(heap@, *obj),
        ensures
            r == Self::made_from(*obj),
    ;
}

impl FromPyObjectRef for PyRef<PyClass> {
    open spec fn right_kind(h: HeapModel, r: PyObjectRef) -> bool {
        is_class(h, r)
    }

    open spec fn made_from(r: PyObjectRef) -> PyRef<PyClass> {
        typed(r)
    }

    fn from_pyobj(obj: &PyObjectRef, heap: &PyHeap) -> Self {
        assert(Self::made_from(*obj) == typed::<PyClass>(*obj));
        PyRef { obj: obj.clone(), _payload: PhantomData }
    }
}

/// The reference with the type `T`.
pub closed spec fn typed<T>(r: PyObjectRef) -> PyRef<T> {
    PyRef { obj: r, _payload: PhantomData }
}

/// Giving a reference a type does not change what it refers to.
pub broadcast proof fn lemma_typed<T>(r: PyObjectRef)
    ensures
        (#[trigger] typed::<T>(r))@ == r,
{
}

/// Things that have a type.
pub trait TypeProtocol {
    /// The object is known in this heap.
    spec fn known_in(&self, h: HeapModel) -> bool;

    /// The type of the object.
    spec fn type_in(&self, h: HeapModel) -> PyObjectRef;

    fn typ(&self, heap: &PyHeap) -> (r: PyObjectRef)
        requires
            self.known_in(heap@),
        ensures
            r == self.type_in(heap@),
    {
        self.type_ref(heap).clone()
    }

    fn type_pyref(&self, heap: &PyHeap) -> (r: PyClassRef)
        requires
            self.known_in(heap@),
            is_class(heap@, self.type_in(heap@)),
        ensures
            r@ == self.type_in(heap@),
            is_class(heap@, r@),
    {
        PyRef::from_pyobj(self.type_ref(heap), heap)
    }

    fn type_ref<'a>(&'a self, heap: &'a PyHeap) -> (r: &'a PyObjectRef)
        requires
            self.known_in(heap@),
        ensures
            *r == self.type_in(heap@),
    ;
}

impl TypeProtocol for PyObjectRef {
    open spec fn known_in(&self, h: HeapModel) -> bool {
        in_heap(h, *self)
    }

    open spec fn type_in(&self, h: HeapModel) -> PyObjectRef {
        object_at(h, *self).typ
    }

    fn type_ref<'a>(&'a self, heap: &'a PyHeap) -> &'a PyObjectRef {
        heap.get(self).type_ref(heap)
    }
}

impl<T> TypeProtocol for PyObject<T> {
    open spec fn known_in(&self, h: HeapModel) -> bool {
        true
    }

    open spec fn type_in(&self, h: HeapModel) -> PyObjectRef {
        self.typ
    }

    fn type_ref<'a>(&'a self, heap: &'a PyHeap) -> &'a PyObjectRef {
        assert(self.type_in(heap@) == self.typ);
        &self.typ
    }
}

impl<T> PyRef<T> {
    pub fn as_object(&self) -> (r: &PyObjectRef)
        ensures
            *r == self@,
    {
        &self.obj
    }

    pub fn into_object(self) -> (r: PyObjectRef)
        ensures
            r == self@,
    {
        self.obj
    }

    /// The class of the object.
    pub fn typ(&self, heap: &PyHeap) -> (r: PyClassRef)
        requires
            in_heap(heap@, self@),
            is_class(heap@, object_at(heap@, self@).typ),
        ensures
            r@ == object_at(heap@, self@).typ,
            r.valid(heap@),
    {
        self.obj.type_pyref(heap)
    }

    /// Gives a reference a type.
    pub(crate) fn from_object(obj: PyObjectRef) -> (r: Self)
        ensures
            r == typed::<T>(obj),
            r@ == obj,
    {
        PyRef { obj, _payload: PhantomData }
    }
}

impl<T: PyObjectPayload> PyRef<T> {
    /// The object that it refers to has a payload of type `T`.
    pub open spec fn valid(&self, h: HeapModel) -> bool {
        in_heap(h, self@) && T::is_model(object_at(h, self@).payload)
    }

    /// The payload.
    pub fn deref<'a>(&self, heap: &'a PyHeap) -> (r: &'a T)
        requires
            self.valid(heap@),
        ensures
            r.as_payload()@ == object_at(heap@, self@).payload,
    {
        match heap.get(&self.obj).payload() {
            Some(v) => v,
            None => vstd::pervasive::unreached(),
        }
    }
}

impl<T> From<PyRef<T>> for PyObjectRef {
    fn from(obj: PyRef<T>) -> (r: PyObjectRef) {
        obj.into_object()
    }
}

impl<T> vstd::std_specs::convert::FromSpecImpl<PyRef<T>> for PyObjectRef {
    open spec fn obeys_from_spec() -> bool {
        true
    }

    open spec fn from_spec(obj: PyRef<T>) -> PyObjectRef {
        obj@
    }
}

impl<'a, T> From<&'a PyRef<T>> for &'a PyObjectRef {
    fn from(obj: &'a PyRef<T>) -> (r: &'a PyObjectRef) {
        obj.as_object()
    }
}

impl<'a, T> vstd::std_specs::convert::FromSpecImpl<&'a PyRef<T>> for &'a PyObjectRef {
    open spec fn obeys_from_spec() -> bool {
        true
    }

    open spec fn from_spec(obj: &'a PyRef<T>) -> &'a PyObjectRef {
        &obj@
    }
}

} // verus!
