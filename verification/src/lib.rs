//! The object model of a Python virtual machine.
pub mod attributes;
pub mod builtins;
pub mod bytecode;
pub mod constants;
pub mod construct;
pub mod context;
pub mod convert;
pub mod describe;
pub mod exceptions;
pub mod frame;
pub mod iter;
pub mod law_classes;
pub mod law_constants;
pub mod law_conversions;
pub mod law_inputs;
pub mod law_items;
pub mod law_objects;
pub mod laws;
pub mod numbers;
pub mod objdict;
pub mod object;
pub mod objtype;
pub mod payload;
pub mod strmap;
pub mod value;
