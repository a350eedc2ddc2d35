//! The built-in types are told apart by their names.
use crate::context::{lemma_derived_valid, PyContext};
use crate::object::PyClassRef;
use crate::objtype::class_name;
use vstd::prelude::*;

verus! {

/// The built-in types, with their names.
pub open spec fn builtin_types(ctx: PyContext) -> Seq<(PyClassRef, Seq<char>)> {
    seq![
        (ctx.object, "object"@),
        (ctx.type_type, "type"@),
        (ctx.dict_type, "dict"@),
        (ctx.module_type, "module"@),
        (ctx.classmethod_type, "classmethod"@),
        (ctx.staticmethod_type, "staticmethod"@),
        (ctx.function_type, "function"@),
        (ctx.builtin_function_or_method_type, "builtin_function_or_method"@),
        (ctx.property_type, "property"@),
        (ctx.readonly_property_type, "readonly_property"@),
        (ctx.super_type, "super"@),
        (ctx.weakref_type, "ref"@),
        (ctx.generator_type, "generator"@),
        (ctx.bound_method_type, "method"@),
        (ctx.str_type, "str"@),
        (ctx.list_type, "list"@),
        (ctx.set_type, "set"@),
        (ctx.frozenset_type, "frozenset"@),
        (ctx.int_type, "int"@),
        (ctx.float_type, "float"@),
        (ctx.frame_type, "frame"@),
        (ctx.complex_type, "complex"@),
        (ctx.bytes_type, "bytes"@),
        (ctx.bytearray_type, "bytearray"@),
        (ctx.tuple_type, "tuple"@),
        (ctx.iter_type, "iter"@),
        (ctx.enumerate_type, "enumerate"@),
        (ctx.filter_type, "filter"@),
        (ctx.map_type, "map"@),
        (ctx.zip_type, "zip"@),
        (ctx.bool_type, "bool"@),
        (ctx.memoryview_type, "memoryview"@),
        (ctx.code_type, "code"@),
        (ctx.range_type, "range"@),
        (ctx.slice_type, "slice"@),
        (ctx.ellipsis_type, "EllipsisType"@),
        (ctx.exceptions.base_exception_type, "BaseException"@),
        (ctx.exceptions.exception_type, "Exception"@),
        (ctx.exceptions.stop_iteration, "StopIteration"@),
        (ctx.exceptions.type_error, "TypeError"@),
    ]
}

/// A number for a name, made of its length and its first two characters.
spec fn mark(name: Seq<char>) -> int {
    name.len() + 100 * (name[0] as int) + 100000 * (name[1] as int)
}

/// The place in `builtin_types` of the name with the given mark.
spec fn place_of(m: int) -> int {
    if m == 9811106 {
        0
    } else if m == 12111604 {
        1
    } else if m == 10510004 {
        2
    } else if m == 11110906 {
        3
    } else if m == 10809911 {
        4
    } else if m == 11611512 {
        5
    } else if m == 11710208 {
        6
    } else if m == 11709826 {
        7
    } else if m == 11411208 {
        8
    } else if m == 10111417 {
        9
    } else if m == 11711505 {
        10
    } else if m == 10111403 {
        11
    } else if m == 10110309 {
        12
    } else if m == 10110906 {
        13
    } else if m == 11611503 {
        14
    } else if m == 10510804 {
        15
    } else if m == 10111503 {
        16
    } else if m == 11410209 {
        17
    } else if m == 11010503 {
        18
    } else if m == 10810205 {
        19
    } else if m == 11410205 {
        20
    } else if m == 11109907 {
        21
    } else if m == 12109805 {
        22
    } else if m == 12109809 {
        23
    } else if m == 11711605 {
        24
    } else if m == 11610504 {
        25
    } else if m == 11010109 {
        26
    } else if m == 10510206 {
        27
    } else if m == 9710903 {
        28
    } else if m == 10512203 {
        29
    } else if m == 11109804 {
        30
    } else if m == 10110910 {
        31
    } else if m == 11109904 {
        32
    } else if m == 9711405 {
        33
    } else if m == 10811505 {
        34
    } else if m == 10806912 {
        35
    } else if m == 9706613 {
        36
    } else if m == 12006909 {
        37
    } else if m == 11608313 {
        38
    } else if m == 12108409 {
        39
    } else {
        -1
    }
}

/// Every built-in type has its name, and no two of them are the same class or
/// have the same name.
pub proof fn law_builtin_types_are_distinct(ctx: PyContext, i: int, j: int)
    requires
        ctx.wf(),
        0 <= i < j < builtin_types(ctx).len(),
    ensures
        class_name(ctx.heap@, builtin_types(ctx)[i].0@) == builtin_types(ctx)[i].1,
        class_name(ctx.heap@, builtin_types(ctx)[j].0@) == builtin_types(ctx)[j].1,
        builtin_types(ctx)[i].1 != builtin_types(ctx)[j].1,
        builtin_types(ctx)[i].0@ != builtin_types(ctx)[j].0@,
{
    lemma_named(ctx, i);
    lemma_named(ctx, j);
}

proof fn lemma_named(ctx: PyContext, i: int)
    requires
        ctx.wf(),
        0 <= i < builtin_types(ctx).len(),
    ensures
        class_name(ctx.heap@, builtin_types(ctx)[i].0@) == builtin_types(ctx)[i].1,
        place_of(mark(builtin_types(ctx)[i].1)) == i,
{
    broadcast use lemma_derived_valid;

    reveal_strlit("object");
    reveal_strlit("type");
    reveal_strlit("dict");
    reveal_strlit("module");
    reveal_strlit("classmethod");
    reveal_strlit("staticmethod");
    reveal_strlit("function");
    reveal_strlit("builtin_function_or_method");
    reveal_strlit("property");
    reveal_strlit("readonly_property");
    reveal_strlit("super");
    reveal_strlit("ref");
    reveal_strlit("generator");
    reveal_strlit("method");
    reveal_strlit("str");
    reveal_strlit("list");
    reveal_strlit("set");
    reveal_strlit("frozenset");
    reveal_strlit("int");
    reveal_strlit("float");
    reveal_strlit("frame");
    reveal_strlit("complex");
    reveal_strlit("bytes");
    reveal_strlit("bytearray");
    reveal_strlit("tuple");
    reveal_strlit("iter");
    reveal_strlit("enumerate");
    reveal_strlit("filter");
    reveal_strlit("map");
    reveal_strlit("zip");
    reveal_strlit("bool");
    reveal_strlit("memoryview");
    reveal_strlit("code");
    reveal_strlit("range");
    reveal_strlit("slice");
    reveal_strlit("EllipsisType");
    reveal_strlit("BaseException");
    reveal_strlit("Exception");
    reveal_strlit("StopIteration");
    reveal_strlit("TypeError");
    assert(mark("object"@) == 9811106);
    assert(mark("type"@) == 12111604);
    assert(mark("dict"@) == 10510004);
    assert(mark("module"@) == 11110906);
    assert(mark("classmethod"@) == 10809911);
    assert(mark("staticmethod"@) == 11611512);
    assert(mark("function"@) == 11710208);
    assert(mark("builtin_function_or_method"@) == 11709826);
    assert(mark("property"@) == 11411208);
    assert(mark("readonly_property"@) == 10111417);
    assert(mark("super"@) == 11711505);
    assert(mark("ref"@) == 10111403);
    assert(mark("generator"@) == 10110309);
    assert(mark("method"@) == 10110906);
    assert(mark("str"@) == 11611503);
    assert(mark("list"@) == 10510804);
    assert(mark("set"@) == 10111503);
    assert(mark("frozenset"@) == 11410209);
    assert(mark("int"@) == 11010503);
    assert(mark("float"@) == 10810205);
    assert(mark("frame"@) == 11410205);
    assert(mark("complex"@) == 11109907);
    assert(mark("bytes"@) == 12109805);
    assert(mark("bytearray"@) == 12109809);
    assert(mark("tuple"@) == 11711605);
    assert(mark("iter"@) == 11610504);
    assert(mark("enumerate"@) == 11010109);
    assert(mark("filter"@) == 10510206);
    assert(mark("map"@) == 9710903);
    assert(mark("zip"@) == 10512203);
    assert(mark("bool"@) == 11109804);
    assert(mark("memoryview"@) == 10110910);
    assert(mark("code"@) == 11109904);
    assert(mark("range"@) == 9711405);
    assert(mark("slice"@) == 10811505);
    assert(mark("EllipsisType"@) == 10806912);
    assert(mark("BaseException"@) == 9706613);
    assert(mark("Exception"@) == 12006909);
    assert(mark("StopIteration"@) == 11608313);
    assert(mark("TypeError"@) == 12108409);
}

} // verus!
