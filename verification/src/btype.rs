//! The primitive types of the model, and their spelling per target.

use vstd::prelude::*;

use crate::compileable::{Compile, Target};

verus! {

/// The list of types that may be used.
#[allow(non_camel_case_types)]
#[derive(Copy, Clone, Debug, PartialEq)]
pub enum BType {
    i32,
    bool,
}

impl Compile for BType {
    open spec fn spec_compile(&self, language: Target) -> Seq<char> {
        match language {
            Target::Rust => match *self {
                BType::i32 => "i32"@,
                BType::bool => "bool"@,
            },
            Target::CSharp => match *self {
                BType::i32 => "Int32"@,
                BType::bool => "bool"@,
            },
            Target::JavaScript => match *self {
                BType::i32 => "Number"@,
                BType::bool => "Boolean"@,
            },
        }
    }

    fn compile(&self, language: Target) -> (s: String) {
        match language {
            Target::Rust => match *self {
                BType::i32 => "i32".to_owned(),
                BType::bool => "bool".to_owned(),
            },
            Target::CSharp => match *self {
                BType::i32 => "Int32".to_owned(),
                BType::bool => "bool".to_owned(),
            },
            Target::JavaScript => match *self {
                BType::i32 => "Number".to_owned(),
                BType::bool => "Boolean".to_owned(),
            },
        }
    }
}

/// The type mapping is exhaustive: every pair of a primitive type and
/// a target has a spelling, and no spelling is the empty string.
pub proof fn lemma_type_mapping_nonempty(t: &BType, language: Target)
    ensures
        t.spec_compile(language).len() > 0,
{
    reveal_strlit("i32");
    reveal_strlit("bool");
    reveal_strlit("Int32");
    reveal_strlit("Number");
    reveal_strlit("Boolean");
}

} // verus!
