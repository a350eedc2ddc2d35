//! The objects for the constants of compiled code.
use crate::bytecode::Constant;
use crate::context::{carries, keeps_builtins, lemma_carries_stays, PyContext};
use crate::numbers::bigint_value;
use crate::object::{
    all_in_heap, grows, in_heap, lemma_ref_at, object_at, plain_object, ref_at, HeapModel,
    ObjectModel, PyObjectRef,
};
use crate::payload::PayloadModel;
use vstd::prelude::*;

verus! {

/// The heap with a new object, and the reference to it.
pub open spec fn with_new(h: HeapModel, o: ObjectModel) -> (HeapModel, PyObjectRef) {
    (h.push(o), ref_at(h.len()))
}

/// The heap that holds the object for the constant `c`, and the reference to
/// that object. There is one object for each of `True`, `False`, `None` and
/// `Ellipsis`; for any other constant there is a new one, and a tuple has new
/// ones for its elements, from the first to the last, and then itself.
pub open spec fn unwrapped(ctx: PyContext, h: HeapModel, c: Constant) -> (HeapModel, PyObjectRef)
    decreases c,
{
    match c {
        Constant::Integer { value } => with_new(
            h,
            plain_object(ctx.int_type@, PayloadModel::Int { value: bigint_value(value) }),
        ),
        Constant::Float { bits } => with_new(
            h,
            plain_object(ctx.float_type@, PayloadModel::Float { bits }),
        ),
        Constant::Complex { value } => with_new(
            h,
            plain_object(ctx.complex_type@, PayloadModel::Complex { value }),
        ),
        Constant::String { value } => with_new(
            h,
            plain_object(ctx.str_type@, PayloadModel::Str { value: value@ }),
        ),
        Constant::Bytes { value } => with_new(
            h,
            plain_object(ctx.bytes_type@, PayloadModel::Bytes { value: value@ }),
        ),
        Constant::Boolean { value } => (
            h,
            if value {
                ctx.true_value@
            } else {
                ctx.false_value@
            },
        ),
        Constant::Code { code } => with_new(
            h,
            plain_object(ctx.code_type@, PayloadModel::Code { code: code@ }),
        ),
        Constant::Tuple { elements } => {
            let (after, refs) = unwrapped_all(ctx, h, elements@);
            with_new(after, plain_object(ctx.tuple_type@, PayloadModel::Tuple { elements: refs }))
        },
        Constant::NoneValue => (h, ctx.none@),
        Constant::Ellipsis => (h, ctx.ellipsis@),
    }
}

/// The heap that holds the objects for the constants `cs`, and the references
/// to these objects.
pub open spec fn unwrapped_all(ctx: PyContext, h: HeapModel, cs: Seq<Constant>) -> (
    HeapModel,
    Seq<PyObjectRef>,
)
    decreases cs,
{
    if cs.len() == 0 {
        (h, Seq::empty())
    } else {
        let (before, refs) = unwrapped_all(ctx, h, cs.drop_last());
        let (after, r) = unwrapped(ctx, before, cs.last());
        (after, refs.push(r))
    }
}

/// The object that `r` refers to stands for the constant `c`.
pub open spec fn represents(ctx: PyContext, h: HeapModel, r: PyObjectRef, c: Constant) -> bool
    decreases c,
{
    match c {
        Constant::Integer { value } => carries(
            h,
            r,
            ctx.int_type@,
            PayloadModel::Int { value: bigint_value(value) },
        ),
        Constant::Float { bits } => carries(h, r, ctx.float_type@, PayloadModel::Float { bits }),
        Constant::Complex { value } => carries(
            h,
            r,
            ctx.complex_type@,
            PayloadModel::Complex { value },
        ),
        Constant::String { value } => carries(
            h,
            r,
            ctx.str_type@,
            PayloadModel::Str { value: value@ },
        ),
        Constant::Bytes { value } => carries(
            h,
            r,
            ctx.bytes_type@,
            PayloadModel::Bytes { value: value@ },
        ),
        Constant::Boolean { value } => r == if value {
            ctx.true_value@
        } else {
            ctx.false_value@
        },
        Constant::Code { code } => carries(
            h,
            r,
            ctx.code_type@,
            PayloadModel::Code { code: code@ },
        ),
        Constant::Tuple { elements } => {
            &&& in_heap(h, r)
            &&& object_at(h, r).typ == ctx.tuple_type@
            &&& object_at(h, r).payload is Tuple
            &&& represents_all(ctx, h, object_at(h, r).payload->Tuple_elements, elements@)
        },
        Constant::NoneValue => r == ctx.none@,
        Constant::Ellipsis => r == ctx.ellipsis@,
    }
}

/// The objects that `refs` refer to stand for the constants `cs`, one for one.
pub open spec fn represents_all(
    ctx: PyContext,
    h: HeapModel,
    refs: Seq<PyObjectRef>,
    cs: Seq<Constant>,
) -> bool
    decreases cs,
{
    &&& refs.len() == cs.len()
    &&& forall|i: int| 0 <= i < cs.len() ==> represents(ctx, h, refs[i], #[trigger] cs[i])
}

/// Which objects stand for constants is determined by the built-in types and
/// values.
pub proof fn lemma_unwrapped_same(a: PyContext, b: PyContext, h: HeapModel, c: Constant)
    requires
        keeps_builtins(a, b),
    ensures
        unwrapped(a, h, c) == unwrapped(b, h, c),
    decreases c,
{
    if let Constant::Tuple { elements } = c {
        lemma_unwrapped_all_same(a, b, h, elements@);
    }
}

proof fn lemma_unwrapped_all_same(a: PyContext, b: PyContext, h: HeapModel, cs: Seq<Constant>)
    requires
        keeps_builtins(a, b),
    ensures
        unwrapped_all(a, h, cs) == unwrapped_all(b, h, cs),
    decreases cs,
{
    if cs.len() > 0 {
        lemma_unwrapped_all_same(a, b, h, cs.drop_last());
        lemma_unwrapped_same(a, b, unwrapped_all(a, h, cs.drop_last()).0, cs.last());
    }
}

/// What stands for a constant is determined by the built-in types and values.
pub proof fn lemma_represents_same(
    a: PyContext,
    b: PyContext,
    h: HeapModel,
    r: PyObjectRef,
    c: Constant,
)
    requires
        keeps_builtins(a, b),
        represents(b, h, r, c),
    ensures
        represents(a, h, r, c),
    decreases c,
{
    if let Constant::Tuple { elements } = c {
        let refs = object_at(h, r).payload->Tuple_elements;
        assert forall|i: int| 0 <= i < elements@.len() implies represents(
            a,
            h,
            refs[i],
            #[trigger] elements@[i],
        ) by {
            assert(decreases_to!(c => c->elements@[i]));
            lemma_represents_same(a, b, h, refs[i], elements@[i]);
        }
    }
}

/// What stands for a constant keeps standing for it.
pub proof fn lemma_represents_stays(
    ctx: PyContext,
    h: HeapModel,
    after: HeapModel,
    r: PyObjectRef,
    c: Constant,
)
    requires
        grows(h, after),
        represents(ctx, h, r, c),
    ensures
        represents(ctx, after, r, c),
    decreases c,
{
    broadcast use lemma_carries_stays;

    if let Constant::Tuple { elements } = c {
        let refs = object_at(h, r).payload->Tuple_elements;
        assert(carries(h, r, ctx.tuple_type@, object_at(h, r).payload));
        assert(carries(after, r, ctx.tuple_type@, object_at(h, r).payload));
        assert forall|i: int| 0 <= i < elements@.len() implies represents(
            ctx,
            after,
            refs[i],
            #[trigger] elements@[i],
        ) by {
            assert(decreases_to!(c => c->elements@[i]));
            lemma_represents_stays(ctx, h, after, refs[i], elements@[i]);
        }
    }
}

impl PyContext {
    /// The object for a constant.
    pub fn unwrap_constant(&mut self, value: &Constant) -> (r: PyObjectRef)
        requires
            old(self).wf(),
        ensures
            final(self).wf(),
            keeps_builtins(*old(self), *final(self)),
            (final(self).heap@, r) == unwrapped(*old(self), old(self).heap@, *value),
            represents(*old(self), final(self).heap@, r, *value),
            in_heap(final(self).heap@, r),
            grows(old(self).heap@, final(self).heap@),
        decreases *value,
    {
        match value {
            Constant::Integer { value } => {
                let r = self.new_int(value.clone());
                proof {
                    lemma_ref_at(r);
                }
                r
            },
            Constant::Float { bits } => {
                let r = self.new_float(*bits);
                proof {
                    lemma_ref_at(r);
                }
                r
            },
            Constant::Complex { value } => {
                let r = self.new_complex(*value);
                proof {
                    lemma_ref_at(r);
                }
                r
            },
            Constant::String { value } => {
                let r = self.new_str(value.clone());
                proof {
                    lemma_ref_at(r);
                }
                r
            },
            Constant::Bytes { value } => {
                let data = value.clone();
                assert(data@ =~= value@);
                let r = self.new_bytes(data);
                proof {
                    lemma_ref_at(r);
                }
                r
            },
            Constant::Boolean { value } => self.new_bool(*value),
            Constant::Code { code } => {
                let r = self.new_code_object((**code).clone());
                proof {
                    lemma_ref_at(r);
                }
                r
            },
            Constant::Tuple { elements } => {
                let mut refs: Vec<PyObjectRef> = Vec::new();
                let mut i: usize = 0;
                while i < elements.len()
                    invariant
                        i <= elements.len(),
                        *value == (Constant::Tuple { elements: *elements }),
                        self.wf(),
                        keeps_builtins(*old(self), *self),
                        (self.heap@, refs@) == unwrapped_all(
                            *old(self),
                            old(self).heap@,
                            elements@.take(i as int),
                        ),
                        represents_all(
                            *old(self),
                            self.heap@,
                            refs@,
                            elements@.take(i as int),
                        ),
                        all_in_heap(self.heap@, refs@),
                        grows(old(self).heap@, self.heap@),
                    decreases elements.len() - i,
                {
                    assert(elements@.take(i + 1).drop_last() =~= elements@.take(i as int));
                    assert(elements@.take(i + 1).last() == elements@[i as int]);
                    proof {
                        assert(decreases_to!(*value => value->elements@[i as int]));
                        lemma_unwrapped_same(
                            *old(self),
                            *self,
                            self.heap@,
                            elements@[i as int],
                        );
                    }
                    let ghost before = *self;
                    let ghost done = refs@;
                    let r = self.unwrap_constant(&elements[i]);
                    refs.push(r);
                    proof {
                        lemma_represents_same(
                            *old(self),
                            before,
                            self.heap@,
                            r,
                            elements@[i as int],
                        );
                        assert forall|j: int| 0 <= j < i + 1 implies represents(
                            *old(self),
                            self.heap@,
                            refs@[j],
                            #[trigger] elements@.take(i + 1)[j],
                        ) by {
                            if j < i {
                                assert(elements@.take(i as int)[j] == elements@[j]);
                                lemma_represents_stays(
                                    *old(self),
                                    before.heap@,
                                    self.heap@,
                                    done[j],
                                    elements@[j],
                                );
                            }
                        }
                    }
                    i = i + 1;
                }
                assert(elements@.take(i as int) =~= elements@);
                let ghost before = self.heap@;
                let ghost done = refs@;
                let r = self.new_tuple(refs);
                proof {
                    lemma_ref_at(r);
                    assert forall|j: int| 0 <= j < elements@.len() implies represents(
                        *old(self),
                        self.heap@,
                        done[j],
                        #[trigger] elements@[j],
                    ) by {
                        lemma_represents_stays(
                            *old(self),
                            before,
                            self.heap@,
                            done[j],
                            elements@[j],
                        );
                    }
                }
                r
            },
            Constant::NoneValue => self.none(),
            Constant::Ellipsis => self.ellipsis(),
        }
    }
}

} // verus!
