//! Classes.
use crate::object::{
    allocated, attributes_fit, grows, heap_ok, in_heap, is_class, object_at, object_fits,
    HeapModel, ObjectModel, PyClassRef, PyHeap, PyObject, PyObjectRef, SameObject, TypeProtocol,
};
use crate::payload::{PayloadModel, PyAttributes, PyClass};
use vstd::prelude::*;

verus! {

/// The name of a class.
pub open spec fn class_name(h: HeapModel, c: PyObjectRef) -> Seq<char> {
    object_at(h, c).payload->Class_name
}

/// The classes that a class inherits from, nearest first.
pub open spec fn class_mro(h: HeapModel, c: PyObjectRef) -> Seq<PyClassRef> {
    object_at(h, c).payload->mro
}

/// What a class with the one base `base` inherits from.
pub open spec fn mro_below(h: HeapModel, base: PyClassRef) -> Seq<PyClassRef> {
    seq![base] + class_mro(h, base@)
}

/// The class `c` is `d` or inherits from it.
pub open spec fn subclass(h: HeapModel, c: PyObjectRef, d: PyObjectRef) -> bool {
    c == d || exists|i: int| 0 <= i < class_mro(h, c).len() && (#[trigger] class_mro(h, c)[i])@ == d
}

/// The object `r` is an instance of the class `c` or of one that inherits from
/// it.
pub open spec fn instance(h: HeapModel, r: PyObjectRef, c: PyObjectRef) -> bool {
    subclass(h, object_at(h, r).typ, c)
}

/// The type of every object is a class.
pub open spec fn all_typed(h: HeapModel) -> bool {
    forall|i: int| 0 <= i < h.len() ==> is_class(h, (#[trigger] h[i]).typ)
}

/// A class inherits from all classes that the classes it inherits from inherit
/// from.
pub open spec fn mro_closed(h: HeapModel) -> bool {
    forall|c: PyObjectRef, i: int, d: PyObjectRef|
        #![trigger class_mro(h, c)[i], subclass(h, c, d)]
        is_class(h, c) && 0 <= i < class_mro(h, c).len() && subclass(h, class_mro(h, c)[i]@, d)
            ==> subclass(h, c, d)
}

/// Every class is `root` or inherits from it.
pub open spec fn rooted(h: HeapModel, root: PyObjectRef) -> bool {
    forall|c: PyObjectRef| #[trigger] is_class(h, c) ==> subclass(h, c, root)
}

/// The classes of the heap form a hierarchy below the class `root`.
#[verifier::opaque]
pub open spec fn hierarchy(h: HeapModel, root: PyObjectRef) -> bool {
    all_typed(h) && mro_closed(h) && rooted(h, root)
}

/// The classes of a heap form a hierarchy also after the heap has grown by
/// objects that are not classes.
pub proof fn lemma_hierarchy_grows(h: HeapModel, after: HeapModel, root: PyObjectRef)
    requires
        heap_ok(h),
        hierarchy(h, root),
        grows(h, after),
        forall|i: int|
            h.len() <= i < after.len() ==> is_class(h, (#[trigger] after[i]).typ) && !(
            after[i].payload is Class),
    ensures
        hierarchy(after, root),
{
    reveal(hierarchy);
    assert forall|c: PyObjectRef| is_class(after, c) implies is_class(h, c) && class_mro(after, c)
        == class_mro(h, c) by {
        assert(after[c@ as int].payload is Class);
    }
    assert forall|c: PyObjectRef| is_class(h, c) implies is_class(after, c) by {
        assert(after[c@ as int].payload == h[c@ as int].payload);
    }
    assert forall|c: PyObjectRef, d: PyObjectRef| is_class(h, c) implies subclass(after, c, d)
        == subclass(h, c, d) by {
        assert(class_mro(after, c) == class_mro(h, c));
    }
    assert forall|i: int| 0 <= i < after.len() implies is_class(
        after,
        (#[trigger] after[i]).typ,
    ) by {
        if i < h.len() {
            assert(is_class(h, h[i].typ));
        }
    }
    assert forall|c: PyObjectRef, i: int, d: PyObjectRef|
        #![trigger class_mro(after, c)[i], subclass(after, c, d)]
        is_class(after, c) && 0 <= i < class_mro(after, c).len() && subclass(
            after,
            class_mro(after, c)[i]@,
            d,
        ) implies subclass(after, c, d) by {
        assert(is_class(h, c));
        assert(object_fits(h, c@, h[c@ as int]));
        assert(is_class(h, class_mro(h, c)[i]@));
        assert(subclass(h, class_mro(h, c)[i]@, d));
        assert(subclass(h, c, d) == subclass(after, c, d));
    }
    assert forall|c: PyObjectRef| is_class(after, c) implies subclass(after, c, root) by {
        assert(is_class(h, c));
        assert(subclass(h, c, root));
    }
}

/// The classes of a heap form a hierarchy also after a class with one base has
/// been added.
pub proof fn lemma_hierarchy_class(
    h: HeapModel,
    o: ObjectModel,
    base: PyClassRef,
    root: PyObjectRef,
)
    requires
        heap_ok(h),
        hierarchy(h, root),
        is_class(h, o.typ),
        base.valid(h),
        o.payload matches PayloadModel::Class { name, mro } && mro == mro_below(h, base),
    ensures
        hierarchy(h.push(o), root),
{
    reveal(hierarchy);
    let after = h.push(o);
    assert forall|c: PyObjectRef| is_class(h, c) implies is_class(after, c) && class_mro(after, c)
        == class_mro(h, c) by {}
    assert forall|c: PyObjectRef, d: PyObjectRef| is_class(h, c) implies subclass(after, c, d)
        == subclass(h, c, d) by {
        assert(class_mro(after, c) == class_mro(h, c));
    }
    assert forall|c: PyObjectRef, d: PyObjectRef|
        is_class(after, c) && !is_class(h, c) && subclass(h, base@, d) implies subclass(
        after,
        c,
        d,
    ) by {
        assert(c@ == h.len());
        assert(class_mro(after, c) == mro_below(h, base));
        if d == base@ {
            assert(class_mro(after, c)[0]@ == d);
        } else {
            let j = choose|j: int|
                0 <= j < class_mro(h, base@).len() && (#[trigger] class_mro(h, base@)[j])@ == d;
            assert(class_mro(after, c)[j + 1]@ == d);
        }
    }
    assert forall|c: PyObjectRef, i: int, d: PyObjectRef|
        #![trigger class_mro(after, c)[i], subclass(after, c, d)]
        is_class(after, c) && 0 <= i < class_mro(after, c).len() && subclass(
            after,
            class_mro(after, c)[i]@,
            d,
        ) implies subclass(after, c, d) by {
        if is_class(h, c) {
            assert(object_fits(h, c@, h[c@ as int]));
            assert(is_class(h, class_mro(h, c)[i]@));
            assert(subclass(h, class_mro(h, c)[i]@, d));
            assert(subclass(h, c, d) == subclass(after, c, d));
        } else {
            assert(class_mro(after, c) == mro_below(h, base));
            assert(object_fits(h, base@@, h[base@@ as int]));
            if i == 0 {
                assert(class_mro(after, c)[i] == base);
            } else {
                let m = class_mro(h, base@)[i - 1];
                assert(class_mro(after, c)[i] == m);
                assert(is_class(h, m@));
                assert(subclass(h, m@, d));
                assert(is_class(h, base@));
                assert(subclass(h, base@, d));
            }
        }
    }
    assert forall|c: PyObjectRef| is_class(after, c) implies subclass(after, c, root) by {
        if is_class(h, c) {
            assert(subclass(h, c, root));
        } else {
            assert(is_class(h, base@));
            assert(subclass(h, base@, root));
        }
    }
    assert forall|i: int| 0 <= i < after.len() implies is_class(
        after,
        (#[trigger] after[i]).typ,
    ) by {
        if i < h.len() {
            assert(is_class(h, h[i].typ));
        }
    }
}

/// Makes a class with one base.
pub fn new(
    typ: PyObjectRef,
    name: &str,
    base: &PyClassRef,
    dict: PyAttributes,
    heap: &mut PyHeap,
) -> (r: PyClassRef)
    requires
        old(heap).wf(),
        in_heap(old(heap)@, typ),
        base.valid(old(heap)@),
        attributes_fit(old(heap)@, dict@),
    ensures
        final(heap).wf(),
        allocated(
            old(heap)@,
            final(heap)@,
            r@,
            (ObjectModel {
                typ,
                dict: Some(dict@),
                payload: PayloadModel::Class { name: name@, mro: mro_below(old(heap)@, *base) },
            }),
        ),
        grows(old(heap)@, final(heap)@),
        r.valid(final(heap)@),
{
    let mut mro: Vec<PyClassRef> = Vec::new();
    mro.push(*base);
    let ghost h = heap@;
    let inherited: &Vec<PyClassRef> = &base.deref(heap).mro;
    let mut i: usize = 0;
    while i < inherited.len()
        invariant
            inherited@ == class_mro(h, base@),
            i <= inherited.len(),
            mro@ == seq![*base] + inherited@.take(i as int),
        decreases inherited.len() - i,
    {
        mro.push(inherited[i]);
        assert(inherited@.take(i + 1) =~= inherited@.take(i as int).push(inherited@[i as int]));
        i = i + 1;
    }
    assert(inherited@.take(i as int) =~= inherited@);
    assert(object_fits(h, base@@, h[base@@ as int]));
    let class = PyObject { typ, dict: Some(dict), payload: PyClass { name: name.to_owned(), mro } };
    PyClassRef::from_object(class.into_ref(heap))
}

/// The name of the type `typ`.
pub fn get_type_name(typ: &PyObjectRef, heap: &PyHeap) -> (r: String)
    requires
        is_class(heap@, *typ),
    ensures
        r@ == class_name(heap@, *typ),
{
    PyClassRef::from_object(*typ).deref(heap).name.clone()
}

/// The class `sub` is `cls` or inherits from it.
pub fn issubclass(sub: &PyClassRef, cls: &PyClassRef, heap: &PyHeap) -> (r: bool)
    requires
        sub.valid(heap@),
    ensures
        r == subclass(heap@, sub@, cls@),
{
    if sub.is(cls) {
        return true;
    }
    let mro: &Vec<PyClassRef> = &sub.deref(heap).mro;
    let mut i: usize = 0;
    while i < mro.len()
        invariant
            i <= mro.len(),
            mro@ == class_mro(heap@, sub@),
            sub@ != cls@,
            forall|j: int| 0 <= j < i ==> (#[trigger] mro[j])@ != cls@,
        decreases mro.len() - i,
    {
        if mro[i].is(cls) {
            assert(class_mro(heap@, sub@)[i as int]@ == cls@);
            return true;
        }
        i = i + 1;
    }
    false
}

/// The object is an instance of the class `cls` or of one that inherits from
/// it.
pub fn isinstance(obj: &PyObjectRef, cls: &PyClassRef, heap: &PyHeap) -> (r: bool)
    requires
        in_heap(heap@, *obj),
        is_class(heap@, object_at(heap@, *obj).typ),
    ensures
        r == instance(heap@, *obj, cls@),
{
    issubclass(&obj.type_pyref(heap), cls, heap)
}

} // verus!
