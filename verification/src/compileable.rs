//! The target languages and the shared rendering contract.

use vstd::prelude::*;

verus! {

/// The various targets a language may have.
#[derive(Copy, Clone, Debug, PartialEq)]
pub enum Target {
    Rust,
    CSharp,
    JavaScript,
}

/// Translates the given object to the target language.
///
/// Rendering is total: every implementation handles every `Target`
/// variant, and for a given entity and target the result is a pure
/// function of the two, stated exactly by `spec_compile`.
pub trait Compile {
    /// The text that `compile` returns, as a sequence of characters.
    spec fn spec_compile(&self, language: Target) -> Seq<char>;

    /// Converts the given object to the target language.
    fn compile(&self, language: Target) -> (s: String)
        ensures
            s@ == self.spec_compile(language),
    ;
}

/// The visibility marker of each target, shared by the field and the
/// aggregate emitters. The three encodings differ structurally, not
/// just lexically: the Rust target prefixes a keyword only for public
/// entities, the CSharp target always writes a keyword, and the
/// JavaScript target, lacking a native modifier, prefixes the
/// identifier itself only for non-public entities.
pub open spec fn spec_visibility_marker(public: bool, language: Target) -> Seq<char> {
    match language {
        Target::Rust => if public {
            "pub "@
        } else {
            Seq::<char>::empty()
        },
        Target::CSharp => if public {
            "public"@
        } else {
            "private"@
        },
        Target::JavaScript => if public {
            Seq::<char>::empty()
        } else {
            "private_"@
        },
    }
}

/// Rendering is deterministic: any two renderings of the same entity
/// with the same target are the same text, since each one equals
/// `spec_compile` of the entity and the target.
pub proof fn lemma_compile_deterministic<T: Compile>(
    entity: &T,
    language: Target,
    first: Seq<char>,
    second: Seq<char>,
)
    requires
        first == entity.spec_compile(language),
        second == entity.spec_compile(language),
    ensures
        first == second,
{
}

} // verus!
