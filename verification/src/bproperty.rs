//! One typed, visibility-tagged member of an aggregate.

use vstd::prelude::*;
use vstd::string::StringExecFns;

use crate::btype::BType;
use crate::compileable::{spec_visibility_marker, Compile, Target};
use crate::ident::{is_identifier, check_identifier, BuildError};

verus! {

/// A property.
pub struct BProperty {
    pub name: String,
    pub btype: BType,
    pub public: bool,
}

impl BProperty {
    /// Builds a property, rejecting a name that is not an identifier
    /// in every target language.
    pub fn new(name: String, btype: BType, public: bool) -> (r: Result<BProperty, BuildError>)
        ensures
            r is Ok <==> is_identifier(name@),
            r matches Ok(p) ==> p.name == name && p.btype == btype && p.public == public,
            r is Err ==> r == Err::<BProperty, BuildError>(BuildError::InvalidIdentifier),
    {
        if check_identifier(name.as_str()) {
            Ok(BProperty { name, btype, public })
        } else {
            Err(BuildError::InvalidIdentifier)
        }
    }
}

impl Compile for BProperty {
    open spec fn spec_compile(&self, language: Target) -> Seq<char> {
        match language {
            Target::Rust => spec_visibility_marker(self.public, language) + self.name@ + ": "@
                + self.btype.spec_compile(language),
            Target::CSharp => spec_visibility_marker(self.public, language) + " "@
                + self.btype.spec_compile(language) + " "@ + self.name@,
            Target::JavaScript => spec_visibility_marker(self.public, language) + self.name@,
        }
    }

    fn compile(&self, language: Target) -> (s: String) {
        match language {
            Target::Rust => {
                let mut out = if self.public {
                    "pub ".to_owned()
                } else {
                    String::new()
                };
                out.append(self.name.as_str());
                out.append(": ");
                let t = self.btype.compile(language);
                out.append(t.as_str());
                proof {
                    assert(out@ =~= self.spec_compile(language));
                }
                out
            }
            Target::CSharp => {
                let mut out = if self.public {
                    "public".to_owned()
                } else {
                    "private".to_owned()
                };
                out.append(" ");
                let t = self.btype.compile(language);
                out.append(t.as_str());
                out.append(" ");
                out.append(self.name.as_str());
                proof {
                    assert(out@ =~= self.spec_compile(language));
                }
                out
            }
            Target::JavaScript => {
                let mut out = if self.public {
                    String::new()
                } else {
                    "private_".to_owned()
                };
                out.append(self.name.as_str());
                proof {
                    assert(out@ =~= self.spec_compile(language));
                }
                out
            }
        }
    }
}

/// No target drops the visibility signal: two properties that agree on
/// name and type but differ in visibility render as different text, in
/// every target.
pub proof fn lemma_visibility_distinguishes(f1: &BProperty, f2: &BProperty, language: Target)
    requires
        f1.name@ == f2.name@,
        f1.btype == f2.btype,
        f1.public != f2.public,
    ensures
        f1.spec_compile(language) != f2.spec_compile(language),
{
    reveal_strlit("pub ");
    reveal_strlit("public");
    reveal_strlit("private");
    reveal_strlit("private_");
    assert(f1.spec_compile(language).len() != f2.spec_compile(language).len());
}

} // verus!
