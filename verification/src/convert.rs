//! Conversions between Python objects and Rust values.
//!
//! Where a conversion needs the virtual machine to run Python code, it says
//! what it needs and is continued with the outcome.
use crate::context::{keeps_builtins, PyContext};
use crate::object::{
    allocated, grows, in_heap, is_class, lemma_typed, object_at, object_fits, payload_fits,
    plain_object, typed, HeapModel, PyObjectRef, PyRef, PyResult, SameObject, TypeProtocol,
};
use crate::objtype;
use crate::objtype::instance;
use crate::payload::PyClass;
use crate::value::PyValue;
use vstd::prelude::*;

verus! {

/// What a type was found not to be.
#[derive(Debug, PartialEq, Eq, Structural, Clone, Copy)]
pub enum MismatchKind {
    /// An object is of the type `second`, where one of the type `first` is
    /// expected.
    NotExpected,
    /// The type `first` does not inherit from the type `second`.
    NotSubtype,
}

/// Types that do not match. An exception is raised that names them, for which
/// the virtual machine has to say how they are printed, first the one and then
/// the other.
#[derive(Debug)]
pub struct TypeMismatch {
    pub kind: MismatchKind,
    pub first: PyObjectRef,
    pub second: PyObjectRef,
    /// How the first type is printed, once that is known.
    pub first_str: Option<String>,
}

/// What follows on an answer of the virtual machine.
#[derive(Debug)]
pub enum MismatchStep {
    /// There is something else to ask.
    Ask(TypeMismatch),
    /// This exception is raised.
    Raise(PyObjectRef),
    /// A new `TypeError` with this message is raised.
    RaiseTypeError(String),
}

/// The message of the exception.
pub open spec fn mismatch_message(
    kind: MismatchKind,
    first: Seq<char>,
    second: Seq<char>,
) -> Seq<char> {
    match kind {
        MismatchKind::NotExpected => "Expected type "@ + first + ", not "@ + second,
        MismatchKind::NotSubtype => first + " is not a subtype of "@ + second,
    }
}

impl TypeMismatch {
    /// The type for which the virtual machine has to say how it is printed.
    pub fn asks(&self) -> (r: PyObjectRef)
        ensures
            r == (if self.first_str is None {
                self.first
            } else {
                self.second
            }),
    {
        if self.first_str.is_none() {
            self.first
        } else {
            self.second
        }
    }

    /// Takes the answer of the virtual machine: how the type is printed, or the
    /// exception that came instead.
    pub fn answer(self, text: PyResult<String>) -> (r: MismatchStep)
        ensures
            match (text, self.first_str) {
                (Err(e), _) => r == MismatchStep::Raise(e),
                (Ok(s), None) => r == MismatchStep::Ask(
                    TypeMismatch { first_str: Some(s), ..self },
                ),
                (Ok(s), Some(f)) => r matches MismatchStep::RaiseTypeError(msg) && msg@
                    == mismatch_message(self.kind, f@, s@),
            },
    {
        match text {
            Err(e) => MismatchStep::Raise(e),
            Ok(s) => match self.first_str {
                None => MismatchStep::Ask(
                    TypeMismatch {
                        kind: self.kind,
                        first: self.first,
                        second: self.second,
                        first_str: Some(s),
                    },
                ),
                Some(f) => MismatchStep::RaiseTypeError(
                    match self.kind {
                        MismatchKind::NotExpected => "Expected type ".to_owned().concat(
                            f.as_str(),
                        ).concat(", not ").concat(s.as_str()),
                        MismatchKind::NotSubtype => f.concat(" is not a subtype of ").concat(
                            s.as_str(),
                        ),
                    },
                ),
            },
        }
    }
}

/// How far a conversion came without the virtual machine.
#[derive(Debug)]
pub enum Conversion<T> {
    /// It is done: this is the value, or the exception.
    Ready(PyResult<T>),
    /// It failed, and there is an exception to be made.
    Mismatch(TypeMismatch),
}

impl<T> Conversion<T> {
    /// The conversion to an `Option` that is not `None`.
    pub open spec fn spec_some(self) -> Conversion<Option<T>> {
        match self {
            Conversion::Ready(Ok(v)) => Conversion::Ready(Ok(Some(v))),
            Conversion::Ready(Err(e)) => Conversion::Ready(Err(e)),
            Conversion::Mismatch(m) => Conversion::Mismatch(m),
        }
    }

    fn some(self) -> (r: Conversion<Option<T>>)
        ensures
            r == self.spec_some(),
    {
        match self {
            Conversion::Ready(Ok(v)) => Conversion::Ready(Ok(Some(v))),
            Conversion::Ready(Err(e)) => Conversion::Ready(Err(e)),
            Conversion::Mismatch(m) => Conversion::Mismatch(m),
        }
    }
}

/// Implemented by any type that can be created from a Python object.
///
/// Any type that implements `TryFromObject` can be accepted as a argument to a
/// built-in function.
pub trait TryFromObject: Sized {
    /// The method of the object that the conversion needs, by its name.
    spec fn needs(ctx: PyContext, obj: PyObjectRef) -> Option<Seq<char>>;

    /// The object can be asked for what the conversion depends on.
    spec fn can_ask(ctx: PyContext, obj: PyObjectRef) -> bool;

    /// The outcome.
    spec fn converted(
        ctx: PyContext,
        obj: PyObjectRef,
        method: Option<PyResult>,
    ) -> Conversion<Self>;

    /// The name of the method of the object that the virtual machine has to
    /// get before the conversion, if there is one.
    fn needed_method(ctx: &PyContext, obj: &PyObjectRef) -> (r: Option<String>)
        ensures
            match r {
                Some(name) => Self::needs(*ctx, *obj) == Some(name@),
                None => Self::needs(*ctx, *obj) is None,
            },
    ;

    /// The object can be asked for what the conversion depends on.
    fn is_askable(ctx: &PyContext, obj: &PyObjectRef) -> (r: bool)
        requires
            ctx.wf(),
            in_heap(ctx.heap@, *obj),
        ensures
            r == Self::can_ask(*ctx, *obj),
    ;

    /// Attempt to convert a Python object to a value of this type. If the
    /// conversion needs a method of the object, `method` is that method, or
    /// the exception that came instead.
    fn try_from_object(ctx: &PyContext, obj: PyObjectRef, method: Option<PyResult>) -> (r:
        Conversion<Self>)
        requires
            ctx.wf(),
            in_heap(ctx.heap@, obj),
            Self::can_ask(*ctx, obj),
            method is Some == Self::needs(*ctx, obj) is Some,
        ensures
            r == Self::converted(*ctx, obj, method),
    ;
}

impl<T: PyValue> TryFromObject for PyRef<T> {
    open spec fn needs(ctx: PyContext, obj: PyObjectRef) -> Option<Seq<char>> {
        None
    }

    open spec fn can_ask(ctx: PyContext, obj: PyObjectRef) -> bool {
        is_class(ctx.heap@, object_at(ctx.heap@, obj).typ)
    }

    open spec fn converted(
        ctx: PyContext,
        obj: PyObjectRef,
        method: Option<PyResult>,
    ) -> Conversion<Self> {
        if instance(ctx.heap@, obj, T::class_in(ctx)@) && T::is_model(
            object_at(ctx.heap@, obj).payload,
        ) {
            Conversion::Ready(Ok(typed(obj)))
        } else {
            Conversion::Mismatch(
                TypeMismatch {
                    kind: MismatchKind::NotExpected,
                    first: T::class_in(ctx)@,
                    second: object_at(ctx.heap@, obj).typ,
                    first_str: None,
                },
            )
        }
    }

    fn needed_method(ctx: &PyContext, obj: &PyObjectRef) -> Option<String> {
        None
    }

    fn is_askable(ctx: &PyContext, obj: &PyObjectRef) -> bool {
        let typ = obj.typ(&ctx.heap);
        assert(object_fits(ctx.heap@, obj@, ctx.heap@[obj@ as int]));
        ctx.heap.get(&typ).payload_is::<PyClass>()
    }

    fn try_from_object(ctx: &PyContext, obj: PyObjectRef, method: Option<PyResult>) -> (r:
        Conversion<Self>)
        ensures
            r matches Conversion::Ready(Ok(made)) ==> made.valid(ctx.heap@),
    {
        broadcast use lemma_typed;

        let class = T::class(ctx);
        if objtype::isinstance(&obj, &class, &ctx.heap) && ctx.heap.get(&obj).payload_is::<T>() {
            Conversion::Ready(Ok(PyRef::from_object(obj)))
        } else {
            Conversion::Mismatch(
                TypeMismatch {
                    kind: MismatchKind::NotExpected,
                    first: class.into_object(),
                    second: obj.typ(&ctx.heap),
                    first_str: None,
                },
            )
        }
    }
}

impl TryFromObject for PyObjectRef {
    open spec fn needs(ctx: PyContext, obj: PyObjectRef) -> Option<Seq<char>> {
        None
    }

    open spec fn can_ask(ctx: PyContext, obj: PyObjectRef) -> bool {
        true
    }

    open spec fn converted(
        ctx: PyContext,
        obj: PyObjectRef,
        method: Option<PyResult>,
    ) -> Conversion<Self> {
        Conversion::Ready(Ok(obj))
    }

    fn needed_method(ctx: &PyContext, obj: &PyObjectRef) -> Option<String> {
        None
    }

    fn is_askable(ctx: &PyContext, obj: &PyObjectRef) -> bool {
        true
    }

    fn try_from_object(ctx: &PyContext, obj: PyObjectRef, method: Option<PyResult>) -> Conversion<
        Self,
    > {
        Conversion::Ready(Ok(obj))
    }
}

impl<T: TryFromObject> TryFromObject for Option<T> {
    open spec fn needs(ctx: PyContext, obj: PyObjectRef) -> Option<Seq<char>> {
        if obj == ctx.none@ {
            None
        } else {
            T::needs(ctx, obj)
        }
    }

    open spec fn can_ask(ctx: PyContext, obj: PyObjectRef) -> bool {
        obj == ctx.none@ || T::can_ask(ctx, obj)
    }

    open spec fn converted(
        ctx: PyContext,
        obj: PyObjectRef,
        method: Option<PyResult>,
    ) -> Conversion<Self> {
        if obj == ctx.none@ {
            Conversion::Ready(Ok(None))
        } else {
            T::converted(ctx, obj, method).spec_some()
        }
    }

    fn needed_method(ctx: &PyContext, obj: &PyObjectRef) -> Option<String> {
        if ctx.none().is(obj) {
            None
        } else {
            T::needed_method(ctx, obj)
        }
    }

    fn is_askable(ctx: &PyContext, obj: &PyObjectRef) -> bool {
        ctx.none().is(obj) || T::is_askable(ctx, obj)
    }

    fn try_from_object(ctx: &PyContext, obj: PyObjectRef, method: Option<PyResult>) -> Conversion<
        Self,
    > {
        if ctx.none().is(&obj) {
            Conversion::Ready(Ok(None))
        } else {
            T::try_from_object(ctx, obj, method).some()
        }
    }
}

/// Allows coercion of a types into PyRefs, so that we can write functions that
/// can take refs, pyobject refs or basic types.
pub trait TryIntoRef<T>: Sized {
    /// The reference can be asked for what the coercion depends on.
    spec fn can_coerce(self, ctx: PyContext) -> bool;

    /// The outcome.
    spec fn coerced(self, ctx: PyContext) -> Conversion<PyRef<T>>;

    fn try_into_ref(self, ctx: &PyContext) -> (r: Conversion<PyRef<T>>)
        requires
            ctx.wf(),
            self.can_coerce(*ctx),
        ensures
            r == self.coerced(*ctx),
    ;
}

impl<T> TryIntoRef<T> for PyRef<T> {
    open spec fn can_coerce(self, ctx: PyContext) -> bool {
        true
    }

    open spec fn coerced(self, ctx: PyContext) -> Conversion<PyRef<T>> {
        Conversion::Ready(Ok(self))
    }

    fn try_into_ref(self, ctx: &PyContext) -> Conversion<PyRef<T>> {
        Conversion::Ready(Ok(self))
    }
}

impl<T: PyValue> TryIntoRef<T> for PyObjectRef {
    open spec fn can_coerce(self, ctx: PyContext) -> bool {
        in_heap(ctx.heap@, self) && <PyRef<T> as TryFromObject>::can_ask(ctx, self)
    }

    open spec fn coerced(self, ctx: PyContext) -> Conversion<PyRef<T>> {
        <PyRef<T> as TryFromObject>::converted(ctx, self, None)
    }

    fn try_into_ref(self, ctx: &PyContext) -> Conversion<PyRef<T>> {
        <PyRef<T> as TryFromObject>::try_from_object(ctx, self, None)
    }
}

/// Implemented by any type that can be returned from a built-in Python function.
///
/// `IntoPyObject` has a blanket implementation for any built-in object payload.
pub trait IntoPyObject: Sized {
    /// The value refers to objects of the heap only.
    spec fn fits(self, h: HeapModel) -> bool;

    /// `r` is the object, or the exception, that the value becomes, and `after`
    /// the heap that it is in.
    spec fn becomes(self, ctx: PyContext, h: HeapModel, after: HeapModel, r: PyResult) -> bool;

    fn into_pyobject(self, ctx: &mut PyContext) -> (r: PyResult)
        requires
            old(ctx).wf(),
            self.fits(old(ctx).heap@),
        ensures
            final(ctx).wf(),
            keeps_builtins(*old(ctx), *final(ctx)),
            grows(old(ctx).heap@, final(ctx).heap@),
            self.becomes(*old(ctx), old(ctx).heap@, final(ctx).heap@, r),
    ;
}

impl<T> IntoPyObject for PyRef<T> {
    open spec fn fits(self, h: HeapModel) -> bool {
        true
    }

    open spec fn becomes(
        self,
        ctx: PyContext,
        h: HeapModel,
        after: HeapModel,
        r: PyResult,
    ) -> bool {
        after == h && r == PyResult::<PyObjectRef>::Ok(self@)
    }

    fn into_pyobject(self, ctx: &mut PyContext) -> PyResult {
        Ok(self.into_object())
    }
}

impl IntoPyObject for PyObjectRef {
    open spec fn fits(self, h: HeapModel) -> bool {
        true
    }

    open spec fn becomes(
        self,
        ctx: PyContext,
        h: HeapModel,
        after: HeapModel,
        r: PyResult,
    ) -> bool {
        after == h && r == PyResult::<PyObjectRef>::Ok(self)
    }

    fn into_pyobject(self, ctx: &mut PyContext) -> PyResult {
        Ok(self)
    }
}

impl<T: IntoPyObject> IntoPyObject for PyResult<T> {
    open spec fn fits(self, h: HeapModel) -> bool {
        self matches Ok(v) ==> v.fits(h)
    }

    open spec fn becomes(
        self,
        ctx: PyContext,
        h: HeapModel,
        after: HeapModel,
        r: PyResult,
    ) -> bool {
        match self {
            Ok(v) => v.becomes(ctx, h, after, r),
            Err(e) => after == h && r == PyResult::<PyObjectRef>::Err(e),
        }
    }

    fn into_pyobject(self, ctx: &mut PyContext) -> PyResult {
        match self {
            Ok(v) => v.into_pyobject(ctx),
            Err(e) => Err(e),
        }
    }
}

/// Allows a built-in function to return any built-in object payload without
/// explicitly implementing `IntoPyObject`.
impl<T: PyValue> IntoPyObject for T {
    open spec fn fits(self, h: HeapModel) -> bool {
        payload_fits(h, h.len(), self.as_payload()@)
    }

    open spec fn becomes(
        self,
        ctx: PyContext,
        h: HeapModel,
        after: HeapModel,
        r: PyResult,
    ) -> bool {
        r matches Ok(o) && allocated(
            h,
            after,
            o,
            plain_object(T::class_in(ctx)@, self.as_payload()@),
        )
    }

    fn into_pyobject(self, ctx: &mut PyContext) -> PyResult {
        Ok(self.into_ref(ctx).into_object())
    }
}

} // verus!
