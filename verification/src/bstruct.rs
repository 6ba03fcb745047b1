//! A named record type composed of ordered properties.

use vstd::prelude::*;
use vstd::string::StringExecFns;

use crate::bproperty::BProperty;
use crate::compileable::{spec_visibility_marker, Compile, Target};
use crate::ident::{is_identifier, check_identifier, BuildError};

verus! {

/// A Struct.
pub struct BStruct {
    pub name: String,
    pub properties: Vec<BProperty>,
    pub public: bool,
}

/// The text of a property list: in the Rust target the renderings are
/// joined by a bare comma; in the other targets every rendering is
/// terminated by a semicolon. An empty list renders as empty text.
pub open spec fn spec_props_text(ps: Seq<BProperty>, language: Target) -> Seq<char>
    decreases ps.len(),
{
    if ps.len() == 0 {
        Seq::<char>::empty()
    } else {
        let front = spec_props_text(ps.drop_last(), language);
        let piece = ps.last().spec_compile(language);
        match language {
            Target::Rust => if ps.len() == 1 {
                piece
            } else {
                front + ","@ + piece
            },
            Target::CSharp => front + piece + ";"@,
            Target::JavaScript => front + piece + ";"@,
        }
    }
}

/// Everything before the open brace of an aggregate's rendering: the
/// visibility marker, the container keyword and the name, with the
/// trailing space.
pub open spec fn spec_decl_header(s: &BStruct, language: Target) -> Seq<char> {
    match language {
        Target::Rust => spec_visibility_marker(s.public, language) + "struct "@ + s.name@ + " "@,
        Target::CSharp => spec_visibility_marker(s.public, language) + " class "@ + s.name@ + " "@,
        Target::JavaScript => "class "@ + spec_visibility_marker(s.public, language) + s.name@
            + " "@,
    }
}

impl BStruct {
    /// Builds an aggregate, rejecting a name that is not an identifier
    /// in every target language. The properties are taken as given:
    /// each one carries its own name, checked where it was built.
    pub fn new(name: String, properties: Vec<BProperty>, public: bool) -> (r: Result<
        BStruct,
        BuildError,
    >)
        ensures
            r is Ok <==> is_identifier(name@),
            r matches Ok(s) ==> s.name == name && s.properties == properties && s.public == public,
            r is Err ==> r == Err::<BStruct, BuildError>(BuildError::InvalidIdentifier),
    {
        if check_identifier(name.as_str()) {
            Ok(BStruct { name, properties, public })
        } else {
            Err(BuildError::InvalidIdentifier)
        }
    }
}

impl Compile for BStruct {
    open spec fn spec_compile(&self, language: Target) -> Seq<char> {
        spec_decl_header(self, language) + "{"@ + spec_props_text(self.properties@, language)
            + "}"@
    }

    fn compile(&self, language: Target) -> (s: String) {
        let mut props = String::new();
        let n = self.properties.len();
        let mut i: usize = 0;
        while i < n
            invariant
                i <= n,
                n == self.properties@.len(),
                props@ == spec_props_text(self.properties@.take(i as int), language),
            decreases n - i,
        {
            let piece = self.properties[i].compile(language);
            match language {
                Target::Rust => {
                    if i > 0 {
                        props.append(",");
                    }
                    props.append(piece.as_str());
                }
                _ => {
                    props.append(piece.as_str());
                    props.append(";");
                }
            }
            proof {
                let ps = self.properties@;
                assert(ps.take(i + 1).drop_last() =~= ps.take(i as int));
                assert(ps.take(i + 1).last() == ps[i as int]);
                assert(props@ =~= spec_props_text(ps.take(i + 1), language));
            }
            i += 1;
        }
        proof {
            assert(self.properties@.take(n as int) =~= self.properties@);
        }
        let mut out = match language {
            Target::Rust => {
                let mut out = if self.public {
                    "pub ".to_owned()
                } else {
                    String::new()
                };
                out.append("struct ");
                out.append(self.name.as_str());
                out.append(" ");
                out
            }
            Target::CSharp => {
                let mut out = if self.public {
                    "public".to_owned()
                } else {
                    "private".to_owned()
                };
                out.append(" class ");
                out.append(self.name.as_str());
                out.append(" ");
                out
            }
            Target::JavaScript => {
                let mut out = "class ".to_owned();
                if !self.public {
                    out.append("private_");
                }
                out.append(self.name.as_str());
                out.append(" ");
                out
            }
        };
        proof {
            assert(out@ =~= spec_decl_header(self, language));
        }
        out.append("{");
        out.append(props.as_str());
        out.append("}");
        proof {
            assert(out@ =~= self.spec_compile(language));
        }
        out
    }
}

/// Field order is preserved: the text of a concatenated property list
/// is the text of the first part followed by the text of the second,
/// with the target's separator between them where the target joins by
/// commas. By induction, each property's rendering therefore appears
/// in declaration order.
pub proof fn lemma_props_order(ps1: Seq<BProperty>, ps2: Seq<BProperty>, language: Target)
    ensures
        language != Target::Rust ==> spec_props_text(ps1 + ps2, language) == spec_props_text(
            ps1,
            language,
        ) + spec_props_text(ps2, language),
        language == Target::Rust && ps1.len() > 0 && ps2.len() > 0 ==> spec_props_text(
            ps1 + ps2,
            language,
        ) == spec_props_text(ps1, language) + ","@ + spec_props_text(ps2, language),
        ps1.len() == 0 ==> spec_props_text(ps1 + ps2, language) == spec_props_text(ps2, language),
        ps2.len() == 0 ==> spec_props_text(ps1 + ps2, language) == spec_props_text(ps1, language),
    decreases ps2.len(),
{
    if ps2.len() == 0 {
        assert(ps1 + ps2 =~= ps1);
        if ps1.len() == 0 {
            assert(ps1 + ps2 =~= ps2);
        }
    } else {
        let whole = ps1 + ps2;
        assert(whole.drop_last() =~= ps1 + ps2.drop_last());
        assert(whole.last() == ps2.last());
        lemma_props_order(ps1, ps2.drop_last(), language);
        if ps1.len() == 0 {
            assert(ps1 + ps2 =~= ps2);
        }
    }
}

/// No target drops the container's visibility signal either: two
/// aggregates that agree on name and properties but differ in
/// visibility render as different text, in every target.
pub proof fn lemma_container_visibility_distinguishes(
    s1: &BStruct,
    s2: &BStruct,
    language: Target,
)
    requires
        s1.name@ == s2.name@,
        s1.properties@ == s2.properties@,
        s1.public != s2.public,
    ensures
        s1.spec_compile(language) != s2.spec_compile(language),
{
    reveal_strlit("pub ");
    reveal_strlit("public");
    reveal_strlit("private");
    reveal_strlit("private_");
    assert(s1.spec_compile(language).len() != s2.spec_compile(language).len());
}

/// Empty-aggregate law: an aggregate with no properties renders as its
/// header — container keyword, visibility and name — followed by empty
/// braces, in every target and for either visibility.
pub proof fn lemma_empty_aggregate(s: &BStruct, language: Target)
    requires
        s.properties@.len() == 0,
    ensures
        s.spec_compile(language) == spec_decl_header(s, language) + "{}"@,
{
    reveal_strlit("{");
    reveal_strlit("}");
    reveal_strlit("{}");
    assert(spec_decl_header(s, language) + "{"@ + spec_props_text(s.properties@, language) + "}"@
        =~= spec_decl_header(s, language) + "{}"@);
}

} // verus!
