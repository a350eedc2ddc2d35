//! How objects are printed, and which of them can be written to as buffers.
use crate::object::{
    in_heap, is_class, object_at, HeapModel, ObjectModel, PyHeap, PyObject, PyObjectRef,
    TypeProtocol,
};
use crate::objtype;
use crate::objtype::class_name;
use crate::payload::{Payload, PayloadModel, PyClass, PyModule};
use vstd::prelude::*;

verus! {

/// How an object is printed.
pub open spec fn printed(h: HeapModel, o: ObjectModel) -> Seq<char> {
    let kind = class_name(h, o.typ);
    match o.payload {
        PayloadModel::Class { name, mro } if kind == "type"@ => "type object '"@ + name + "'"@,
        PayloadModel::Module { name, dict } => "module '"@ + name + "'"@,
        _ => "'"@ + kind + "' object"@,
    }
}

fn quoted(before: &str, name: &str, after: &str) -> (r: String)
    ensures
        r@ == before@ + name@ + after@,
{
    before.to_owned().concat(name).concat(after)
}

impl PyObject<Payload> {
    /// How the object is printed.
    ///
    /// We don't have access to a vm, so just assume that if its parent's name
    /// is type, it's a type.
    pub fn display(&self, heap: &PyHeap) -> (r: String)
        requires
            self.payload@ is Module || is_class(heap@, self.typ),
        ensures
            r@ == printed(heap@, self@),
    {
        if let Some(module) = self.payload::<PyModule>() {
            return quoted("module '", module.name.as_str(), "'");
        }
        let kind = objtype::get_type_name(&self.typ, heap);
        if let Some(class) = self.payload::<PyClass>() {
            if kind == "type".to_owned() {
                return quoted("type object '", class.name.as_str(), "'");
            }
        }
        quoted("'", kind.as_str(), "' object")
    }
}

/// The name of a bytes-like type.
pub open spec fn bytes_like(name: Seq<char>) -> bool {
    name == "bytes"@ || name == "bytearray"@ || name == "memoryview"@
}

/// The type of the object is bytes-like.
pub fn is_bytes_like(obj: &PyObjectRef, heap: &PyHeap) -> (r: bool)
    requires
        in_heap(heap@, *obj),
        is_class(heap@, object_at(heap@, *obj).typ),
    ensures
        r == bytes_like(class_name(heap@, object_at(heap@, *obj).typ)),
{
    let name = objtype::get_type_name(&obj.typ(heap), heap);
    name == "bytes".to_owned() || name == "bytearray".to_owned() || name == "memoryview".to_owned()
}

/// Bytes-like things.
pub trait BufferProtocol: TypeProtocol {
    fn readonly(&self, heap: &PyHeap) -> (r: bool)
        requires
            self.known_in(heap@),
            is_class(heap@, self.type_in(heap@)),
            bytes_like(class_name(heap@, self.type_in(heap@))),
        ensures
            r == (class_name(heap@, self.type_in(heap@)) != "bytes"@),
    ;
}

impl BufferProtocol for PyObjectRef {
    fn readonly(&self, heap: &PyHeap) -> bool {
        let name = objtype::get_type_name(&self.typ(heap), heap);
        if name == "bytes".to_owned() {
            false
        } else {
            true
        }
    }
}

} // verus!
