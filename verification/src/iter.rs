//! Iteration over Python objects.
use crate::context::PyContext;
use crate::convert::{Conversion, TryFromObject};
use crate::object::{in_heap, is_class, object_at, PyObjectRef, PyResult};
use crate::objtype;
use crate::objtype::instance;
use std::marker::PhantomData;
use vstd::prelude::*;

verus! {

/// The arguments of a call.
#[derive(Debug)]
pub struct PyFuncArgs {
    pub args: Vec<PyObjectRef>,
    pub kwargs: Vec<(String, PyObjectRef)>,
}

/// A call that the virtual machine has to make.
#[derive(Debug)]
#[allow(inconsistent_fields)]
pub enum VmCall {
    /// Calls `func`.
    Invoke { func: PyObjectRef, args: PyFuncArgs },
    /// Calls the method `name` of `obj`.
    CallMethod { obj: PyObjectRef, name: String, args: Vec<PyObjectRef> },
}

/// An iterable Python object.
///
/// A built-in function can accept an object that is required to conform to the
/// Python iterator protocol.
///
/// PyIterable can optionally perform type checking and conversions on iterated
/// objects using a generic type parameter that implements `TryFromObject`.
#[derive(Debug)]
pub struct PyIterable<T = PyObjectRef> {
    method: PyObjectRef,
    _item: PhantomData<T>,
}

/// An iterator over the items of an iterable Python object.
#[derive(Debug)]
pub struct PyIterator<T> {
    obj: PyObjectRef,
    _item: PhantomData<T>,
}

impl<T> PyIterable<T> {
    /// The method `__iter__` of the object.
    pub closed spec fn iter_method(&self) -> PyObjectRef {
        self.method
    }

    /// The iterable object whose method `__iter__` is `method`.
    pub closed spec fn with_method(method: PyObjectRef) -> PyIterable<T> {
        PyIterable { method, _item: PhantomData }
    }

    /// The method of an iterable object is the one that it was made with.
    pub proof fn lemma_with_method(method: PyObjectRef)
        ensures
            PyIterable::<T>::with_method(method).iter_method() == method,
    {
    }

    /// The call that gives the iterator.
    pub fn iter_call(&self) -> (r: VmCall)
        ensures
            r matches VmCall::Invoke { func, args } && func == self.iter_method()
                && args.args@.len() == 0 && args.kwargs@.len() == 0,
    {
        VmCall::Invoke {
            func: self.method.clone(),
            args: PyFuncArgs { args: Vec::new(), kwargs: Vec::new() },
        }
    }

    /// Returns an iterator over this sequence of objects, where `called` is
    /// the outcome of `iter_call`.
    ///
    /// This operation may fail if an exception is raised while invoking the
    /// `__iter__` method of the iterable object.
    pub fn iter(&self, called: PyResult) -> (r: PyResult<PyIterator<T>>)
        ensures
            match called {
                Ok(iter_obj) => r matches Ok(it) && it.iter_obj() == iter_obj,
                Err(e) => r == PyResult::<PyIterator<T>>::Err(e),
            },
    {
        match called {
            Ok(iter_obj) => Ok(PyIterator { obj: iter_obj, _item: PhantomData }),
            Err(e) => Err(e),
        }
    }
}

impl<T> PyIterator<T> {
    /// The iterator object.
    pub closed spec fn iter_obj(&self) -> PyObjectRef {
        self.obj
    }

    /// The call that gives the next item.
    pub fn next_call(&self) -> (r: VmCall)
        ensures
            r matches VmCall::CallMethod { obj, name, args } && obj == self.iter_obj() && name@
                == "__next__"@ && args@.len() == 0,
    {
        VmCall::CallMethod { obj: self.obj, name: "__next__".to_owned(), args: Vec::new() }
    }
}

impl<T: TryFromObject> PyIterator<T> {
    /// The next item, where `called` is the outcome of `next_call`, and
    /// `method` that of getting the method that the conversion of the next
    /// object needs. There is no next item if the call raised `StopIteration`.
    pub fn next(&self, ctx: &PyContext, called: PyResult, method: Option<PyResult>) -> (r: Option<
        Conversion<T>,
    >)
        requires
            ctx.wf(),
            match called {
                Ok(value) => {
                    &&& in_heap(ctx.heap@, value)
                    &&& T::can_ask(*ctx, value)
                    &&& method is Some == T::needs(*ctx, value) is Some
                },
                Err(e) => in_heap(ctx.heap@, e) && is_class(
                    ctx.heap@,
                    object_at(ctx.heap@, e).typ,
                ),
            },
        ensures
            match called {
                Ok(value) => r == Some(T::converted(*ctx, value, method)),
                Err(e) => if instance(ctx.heap@, e, ctx.exceptions.stop_iteration@) {
                    r is None
                } else {
                    r == Some(Conversion::<T>::Ready(Err(e)))
                },
            },
    {
        match called {
            Ok(value) => Some(T::try_from_object(ctx, value, method)),
            Err(e) => if objtype::isinstance(&e, &ctx.exceptions.stop_iteration, &ctx.heap) {
                None
            } else {
                Some(Conversion::Ready(Err(e)))
            },
        }
    }
}

impl<T: TryFromObject> TryFromObject for PyIterable<T> {
    open spec fn needs(ctx: PyContext, obj: PyObjectRef) -> Option<Seq<char>> {
        Some("__iter__"@)
    }

    open spec fn can_ask(ctx: PyContext, obj: PyObjectRef) -> bool {
        true
    }

    open spec fn converted(
        ctx: PyContext,
        obj: PyObjectRef,
        method: Option<PyResult>,
    ) -> Conversion<Self> {
        match method->0 {
            Ok(m) => Conversion::Ready(Ok(PyIterable::with_method(m))),
            Err(e) => Conversion::Ready(Err(e)),
        }
    }

    fn needed_method(ctx: &PyContext, obj: &PyObjectRef) -> Option<String> {
        Some("__iter__".to_owned())
    }

    fn is_askable(ctx: &PyContext, obj: &PyObjectRef) -> bool {
        true
    }

    fn try_from_object(ctx: &PyContext, obj: PyObjectRef, method: Option<PyResult>) -> Conversion<
        Self,
    > {
        match method {
            Some(Ok(m)) => Conversion::Ready(Ok(PyIterable { method: m, _item: PhantomData })),
            Some(Err(e)) => Conversion::Ready(Err(e)),
            None => vstd::pervasive::unreached(),
        }
    }
}

} // verus!
