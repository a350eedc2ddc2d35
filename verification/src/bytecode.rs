//! Compiled code and the constants in it.
use num_bigint::BigInt;
use num_complex::Complex64;
use vstd::prelude::*;

verus! {

/// A compiled piece of code.
#[derive(Debug)]
pub struct CodeObject {
    /// The encoded instructions.
    pub instructions: Vec<u8>,
    pub source_path: String,
    pub first_line_number: usize,
    /// The name of the function or module that was compiled.
    pub obj_name: String,
}

/// The mathematical value of a code object.
pub struct CodeModel {
    pub instructions: Seq<u8>,
    pub source_path: Seq<char>,
    pub first_line_number: nat,
    pub obj_name: Seq<char>,
}

impl CodeObject {
    pub open spec fn view(&self) -> CodeModel {
        CodeModel {
            instructions: self.instructions@,
            source_path: self.source_path@,
            first_line_number: self.first_line_number as nat,
            obj_name: self.obj_name@,
        }
    }
}

impl Clone for CodeObject {
    fn clone(&self) -> (r: CodeObject)
        ensures
            r@ == self@,
    {
        let instructions = self.instructions.clone();
        assert(instructions@ =~= self.instructions@);
        CodeObject {
            instructions,
            source_path: self.source_path.clone(),
            first_line_number: self.first_line_number,
            obj_name: self.obj_name.clone(),
        }
    }
}

/// A constant that compiled code refers to.
#[derive(Debug)]
#[allow(inconsistent_fields)]
pub enum Constant {
    Integer { value: BigInt },
    /// A floating point number, by the bits of its IEEE 754 binary64 form.
    Float { bits: u64 },
    Complex { value: Complex64 },
    Boolean { value: bool },
    String { value: String },
    Bytes { value: Vec<u8> },
    Code { code: Box<CodeObject> },
    Tuple { elements: Vec<Constant> },
    NoneValue,
    Ellipsis,
}

} // verus!
