//! The representation extractor.
//!
//! Scans a declaration's attributes for the first outer `repr(X)`
//! annotation and reads the storage type identifier `X` out of its argument
//! group. Absence of the annotation is not an error here; a malformed
//! argument group is.

use vstd::prelude::*;

use crate::decl::{AttrArg, AttrToken, Attribute, EnumDeclaration};
use crate::error::{GenError, StructuralIssue};

verus! {

/// Whether `a` is an outer attribute whose path is the literal name `repr`.
pub open spec fn is_repr_attr(a: Attribute) -> bool {
    a.outer && a.path@ == "repr"@
}

/// The first `repr` attribute of `attrs`, if any.
pub open spec fn repr_search(attrs: Seq<Attribute>) -> Option<Attribute>
    decreases attrs.len(),
{
    if attrs.len() == 0 {
        None
    } else if is_repr_attr(attrs[0]) {
        Some(attrs[0])
    } else {
        repr_search(attrs.drop_first())
    }
}

/// The identifier the attribute's argument names: the first token of its
/// argument group, when that argument is a group whose first token is an
/// identifier.
pub open spec fn attr_ident(a: Attribute) -> Option<Seq<char>> {
    match a.arg {
        AttrArg::Group(toks) => if toks@.len() > 0 {
            match toks@[0] {
                AttrToken::Ident(s) => Some(s@),
                AttrToken::Other => None,
            }
        } else {
            None
        },
        AttrArg::Other => None,
    }
}

/// The declared storage type of `decl`: the identifier inside its first
/// `repr` attribute, when that attribute exists and is well-shaped.
pub open spec fn declared_repr(decl: EnumDeclaration) -> Option<Seq<char>> {
    match repr_search(decl.attrs@) {
        Some(a) => attr_ident(a),
        None => None,
    }
}

/// Whether `decl` carries a `repr` attribute whose argument group does not
/// yield an identifier.
pub open spec fn repr_malformed(decl: EnumDeclaration) -> bool {
    repr_search(decl.attrs@) is Some && attr_ident(repr_search(decl.attrs@)->Some_0) is None
}

/// A prefix free of `repr` attributes does not change the search.
proof fn lemma_repr_search_skip(attrs: Seq<Attribute>, i: int)
    requires
        0 <= i <= attrs.len(),
        forall|j: int| 0 <= j < i ==> !is_repr_attr(attrs[j]),
    ensures
        repr_search(attrs) == repr_search(attrs.subrange(i, attrs.len() as int)),
    decreases i,
{
    if i > 0 {
        assert(attrs.subrange(0, attrs.len() as int) =~= attrs);
        lemma_repr_search_skip(attrs, i - 1);
        let rest = attrs.subrange(i - 1, attrs.len() as int);
        assert(rest[0] == attrs[i - 1]);
        assert(rest.drop_first() =~= attrs.subrange(i, attrs.len() as int));
    } else {
        assert(attrs.subrange(0, attrs.len() as int) =~= attrs);
    }
}

/// The representation extractor.
///
/// Returns the storage type identifier of the first outer `repr(X)`
/// annotation, `Ok(None)` when the declaration has no such annotation, and
/// a structural error when the annotation's argument is not a parenthesized
/// identifier.
pub fn extract_repr_type(decl: &EnumDeclaration) -> (r: Result<Option<String>, GenError>)
    ensures
        match repr_search(decl.attrs@) {
            Option::None => r matches Ok(o) && o is None,
            Option::Some(a) => match attr_ident(a) {
                Option::Some(id) => r matches Ok(o) && o matches Some(s) && s@ == id,
                Option::None => r matches Err(e)
                    && e matches GenError::StructuralViolation(
                        StructuralIssue::MalformedAttribute { enum_name },
                    )
                    && enum_name@ == decl.name@,
            },
        },
{
    let repr_name: String = "repr".to_owned();
    let n = decl.attrs.len();
    let mut i: usize = 0;
    while i < n
        invariant
            i <= n,
            n == decl.attrs@.len(),
            repr_name@ == "repr"@,
            forall|j: int| 0 <= j < i ==> !is_repr_attr(decl.attrs@[j]),
        decreases n - i,
    {
        let a = &decl.attrs[i];
        if a.outer && a.path.eq(&repr_name) {
            proof {
                lemma_repr_search_skip(decl.attrs@, i as int);
                let rest = decl.attrs@.subrange(i as int, n as int);
                assert(rest[0] == decl.attrs@[i as int]);
                assert(repr_search(decl.attrs@) == Some(decl.attrs@[i as int]));
            }
            match &a.arg {
                AttrArg::Group(toks) => {
                    if toks.len() > 0 {
                        match &toks[0] {
                            AttrToken::Ident(s) => {
                                return Ok(Some(s.clone()));
                            },
                            AttrToken::Other => {
                                return Err(GenError::StructuralViolation(
                                    StructuralIssue::MalformedAttribute {
                                        enum_name: decl.name.clone(),
                                    },
                                ));
                            },
                        }
                    } else {
                        return Err(GenError::StructuralViolation(
                            StructuralIssue::MalformedAttribute { enum_name: decl.name.clone() },
                        ));
                    }
                },
                AttrArg::Other => {
                    return Err(GenError::StructuralViolation(
                        StructuralIssue::MalformedAttribute { enum_name: decl.name.clone() },
                    ));
                },
            }
        }
        i += 1;
    }
    proof {
        lemma_repr_search_skip(decl.attrs@, n as int);
        assert(decl.attrs@.subrange(n as int, n as int) =~= Seq::<Attribute>::empty());
    }
    Ok(None)
}

} // verus!
