//! What the objects for constants are, read from the heap.
use crate::bytecode::Constant;
use crate::constants::{lemma_represents_same, represents, unwrapped, unwrapped_all};
use crate::context::{lemma_derived_valid, PyContext};
use crate::numbers::bigint_value;
use crate::object::{grows, lemma_place, lemma_typed, HeapModel, PyObjectRef};
use crate::payload::PayloadModel;
use vstd::prelude::*;

verus! {

/// The value of the constant can be read from the object that `r` refers to: its
/// class has the name of the type of the constant, and it carries the value. An
/// object for a tuple has as many elements as the tuple, and from each of them
/// the value of the element with the same number can be read.
pub open spec fn has_value(h: HeapModel, r: PyObjectRef, c: Constant) -> bool
    decreases c,
{
    let o = h[r@ as int];
    let name = h[o.typ@ as int].payload->Class_name;
    &&& r@ < h.len()
    &&& match c {
        Constant::Integer { value } => {
            name == "int"@ && o.payload == PayloadModel::Int { value: bigint_value(value) }
        },
        Constant::Float { bits } => name == "float"@ && o.payload == PayloadModel::Float { bits },
        Constant::Complex { value } => {
            name == "complex"@ && o.payload == PayloadModel::Complex { value }
        },
        Constant::Boolean { value } => {
            name == "bool"@ && o.payload == PayloadModel::Int {
                value: if value {
                    1
                } else {
                    0
                },
            }
        },
        Constant::String { value } => {
            name == "str"@ && o.payload == PayloadModel::Str { value: value@ }
        },
        Constant::Bytes { value } => {
            name == "bytes"@ && o.payload == PayloadModel::Bytes { value: value@ }
        },
        Constant::Code { code } => {
            name == "code"@ && o.payload == PayloadModel::Code { code: code@ }
        },
        Constant::Tuple { elements } => {
            &&& name == "tuple"@
            &&& o.payload is Tuple
            &&& o.payload->Tuple_elements.len() == elements@.len()
            &&& forall|i: int|
                0 <= i < elements@.len() ==> has_value(
                    h,
                    o.payload->Tuple_elements[i],
                    #[trigger] elements@[i],
                )
        },
        Constant::NoneValue => name == "NoneType"@ && o.payload is NoneValue,
        Constant::Ellipsis => name == "EllipsisType"@ && o.payload is Ellipsis,
    }
}

/// The two constants have the same value.
pub open spec fn same_constant(a: Constant, b: Constant) -> bool
    decreases a,
{
    match a {
        Constant::Integer { value } => {
            b is Integer && bigint_value(b->Integer_value) == bigint_value(value)
        },
        Constant::Float { bits } => b is Float && b->bits == bits,
        Constant::Complex { value } => b is Complex && b->Complex_value == value,
        Constant::Boolean { value } => b is Boolean && b->Boolean_value == value,
        Constant::String { value } => b is String && b->String_value@ == value@,
        Constant::Bytes { value } => b is Bytes && b->Bytes_value@ == value@,
        Constant::Code { code } => b is Code && b->code@ == code@,
        Constant::Tuple { elements } => {
            &&& b is Tuple
            &&& b->elements@.len() == elements@.len()
            &&& forall|i: int|
                0 <= i < elements@.len() ==> same_constant(#[trigger] elements@[i], b->elements@[i])
        },
        Constant::NoneValue => b is NoneValue,
        Constant::Ellipsis => b is Ellipsis,
    }
}

/// The object that is made for a constant has the value of the constant, down to
/// the last element of the last tuple in it. `True`, `False`, `None` and
/// `Ellipsis` are the objects that are there; for any other constant the object
/// is new and has no attributes. All objects that were there stay.
pub proof fn law_constant_has_its_value(ctx: &mut PyContext, c: Constant, r: PyObjectRef)
    requires
        old(ctx).wf(),
        call_ensures(PyContext::unwrap_constant, (ctx, &c), r),
    ensures
        final(ctx).wf(),
        has_value(final(ctx).heap@, r, c),
        old(ctx).heap@.len() <= final(ctx).heap@.len(),
        forall|i: int|
            0 <= i < old(ctx).heap@.len() ==> #[trigger] final(ctx).heap@[i] == old(ctx).heap@[i],
        forall|i: int|
            old(ctx).heap@.len() <= i < final(ctx).heap@.len()
                ==> (#[trigger] final(ctx).heap@[i]).dict == Some(
                Map::<Seq<char>, PyObjectRef>::empty(),
            ),
        *final(ctx) == (PyContext { heap: final(ctx).heap, ..*old(ctx) }),
        match c {
            Constant::Boolean { value } => {
                &&& final(ctx).heap@ == old(ctx).heap@
                &&& value ==> r == old(ctx).true_value@
                &&& !value ==> r == old(ctx).false_value@
            },
            Constant::NoneValue => final(ctx).heap@ == old(ctx).heap@ && r == old(ctx).none@,
            Constant::Ellipsis => final(ctx).heap@ == old(ctx).heap@ && r == old(ctx).ellipsis@,
            Constant::Tuple { elements } => {
                &&& r@ >= old(ctx).heap@.len()
                &&& r@ + 1 == final(ctx).heap@.len()
                &&& final(ctx).heap@[r@ as int].typ == old(ctx).tuple_type@
                &&& final(ctx).heap@[r@ as int].payload is Tuple
                &&& final(ctx).heap@[r@ as int].payload->Tuple_elements.len() == elements@.len()
            },
            _ => r@ == old(ctx).heap@.len() && final(ctx).heap@.len() == r@ + 1,
        },
{
    let after = final(ctx).heap@;
    assert(*old(ctx) == (PyContext { heap: old(ctx).heap, ..*final(ctx) }));
    lemma_represents_same(*final(ctx), *old(ctx), after, r, c);
    lemma_represented_has_value(*final(ctx), after, r, c);
    lemma_unwrapped_adds(*old(ctx), old(ctx).heap@, c);
    if !(c is Boolean || c is NoneValue || c is Ellipsis) {
        lemma_place(final(ctx).heap, (after.len() - 1) as nat);
        if let Constant::Tuple { elements } = c {
            lemma_unwrapped_all_adds(*old(ctx), old(ctx).heap@, elements@);
        }
    }
}

/// Two constants whose values can be read from the same object have the same
/// value: an object gives the constant back that it was made for.
pub proof fn law_object_gives_constant_back(
    h: HeapModel,
    r: PyObjectRef,
    a: Constant,
    b: Constant,
)
    requires
        has_value(h, r, a),
        has_value(h, r, b),
    ensures
        same_constant(a, b),
    decreases a,
{
    reveal_strlit("int");
    reveal_strlit("bool");
    assert("int"@.len() == 3);
    assert("bool"@.len() == 4);
    if let Constant::Tuple { elements } = a {
        let refs = h[r@ as int].payload->Tuple_elements;
        assert forall|i: int| 0 <= i < elements@.len() implies same_constant(
            #[trigger] elements@[i],
            b->elements@[i],
        ) by {
            assert(decreases_to!(a => a->elements@[i]));
            assert(has_value(h, refs[i], b->elements@[i]));
            law_object_gives_constant_back(h, refs[i], elements@[i], b->elements@[i]);
        }
    }
}

/// An object from which the value of a constant can be read keeps it.
pub proof fn law_value_is_kept(h: HeapModel, after: HeapModel, r: PyObjectRef, c: Constant)
    requires
        grows(h, after),
        has_value(h, r, c),
        forall|i: int| 0 <= i < h.len() ==> (#[trigger] h[i]).typ@ < h.len(),
        forall|i: int| 0 <= i < h.len() ==> h[(#[trigger] h[i]).typ@ as int].payload is Class,
    ensures
        has_value(after, r, c),
    decreases c,
{
    let o = h[r@ as int];
    assert(after[r@ as int].typ == o.typ);
    assert(after[o.typ@ as int].payload == h[o.typ@ as int].payload);
    if let Constant::Tuple { elements } = c {
        let refs = o.payload->Tuple_elements;
        assert forall|i: int| 0 <= i < elements@.len() implies has_value(
            after,
            refs[i],
            #[trigger] elements@[i],
        ) by {
            assert(decreases_to!(c => c->elements@[i]));
            law_value_is_kept(h, after, refs[i], elements@[i]);
        }
    }
}

/// The same constant is made into a new object each time, except where there is
/// one object for it.
pub proof fn law_constants_are_made_anew(
    first: &mut PyContext,
    second: &mut PyContext,
    c: Constant,
    r: PyObjectRef,
    s: PyObjectRef,
)
    requires
        old(first).wf(),
        call_ensures(PyContext::unwrap_constant, (first, &c), r),
        *old(second) == *final(first),
        call_ensures(PyContext::unwrap_constant, (second, &c), s),
    ensures
        (r == s) == (c is Boolean || c is NoneValue || c is Ellipsis),
{
    law_constant_has_its_value(first, c, r);
    law_constant_has_its_value(second, c, s);
}

proof fn lemma_represented_has_value(ctx: PyContext, h: HeapModel, r: PyObjectRef, c: Constant)
    requires
        ctx.builtins_ok(h),
        represents(ctx, h, r, c),
    ensures
        has_value(h, r, c),
    decreases c,
{
    broadcast use {lemma_derived_valid, lemma_typed};

    if let Constant::Tuple { elements } = c {
        let refs = h[r@ as int].payload->Tuple_elements;
        assert forall|i: int| 0 <= i < elements@.len() implies has_value(
            h,
            refs[i],
            #[trigger] elements@[i],
        ) by {
            assert(decreases_to!(c => c->elements@[i]));
            lemma_represented_has_value(ctx, h, refs[i], elements@[i]);
        }
    }
}

/// Objects are only added, and they have no attributes.
spec fn adds_plain(h: HeapModel, after: HeapModel) -> bool {
    &&& h.len() <= after.len()
    &&& forall|i: int| 0 <= i < h.len() ==> #[trigger] after[i] == h[i]
    &&& forall|i: int|
        h.len() <= i < after.len() ==> (#[trigger] after[i]).dict == Some(
            Map::<Seq<char>, PyObjectRef>::empty(),
        )
}

proof fn lemma_unwrapped_adds(ctx: PyContext, h: HeapModel, c: Constant)
    ensures
        adds_plain(h, unwrapped(ctx, h, c).0),
    decreases c,
{
    if let Constant::Tuple { elements } = c {
        lemma_unwrapped_all_adds(ctx, h, elements@);
    }
}

proof fn lemma_unwrapped_all_adds(ctx: PyContext, h: HeapModel, cs: Seq<Constant>)
    ensures
        adds_plain(h, unwrapped_all(ctx, h, cs).0),
    decreases cs,
{
    if cs.len() > 0 {
        let before = unwrapped_all(ctx, h, cs.drop_last()).0;
        lemma_unwrapped_all_adds(ctx, h, cs.drop_last());
        lemma_unwrapped_adds(ctx, before, cs.last());
    }
}

} // verus!
