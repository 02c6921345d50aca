//! The generation pipeline.
//!
//! A single pass over the declaration: extract the declared storage type,
//! validate each variant in order, check that all variants agree on one
//! literal kind and one numeric suffix, check that suffix against the
//! declared representation, and assemble the conversion routine. Every
//! violation aborts the whole generation at its point of detection.

use vstd::prelude::*;

use crate::ascii::{eq_lowered, lower_seq};
use crate::decl::{Data, EnumDeclaration, LitKind, VariantDecl};
use crate::error::{GenError, StructuralIssue};
use crate::generated::{lemma_round_trip, match_index, GeneratedConversion, MatchArm};
use crate::repr::{declared_repr, extract_repr_type, repr_malformed};
use crate::variant::{
    extract_variant_data, variant_issue, variant_lit_kind, variant_suffix, variant_value,
    VariantIssue,
};

verus! {

/// The variants of the declaration, when it is a sum type.
pub open spec fn decl_variants(decl: EnumDeclaration) -> Seq<VariantDecl> {
    match decl.data {
        Data::Enum(vs) => vs@,
        Data::Other => Seq::empty(),
    }
}

/// The literal kinds the variants' discriminants carry, in declaration
/// order.
pub open spec fn kind_seq(vs: Seq<VariantDecl>) -> Seq<LitKind> {
    vs.map_values(|v: VariantDecl| variant_lit_kind(v))
}

/// The numeric suffixes the variants' discriminants carry, in declaration
/// order.
pub open spec fn suffix_seq(vs: Seq<VariantDecl>) -> Seq<Seq<char>> {
    vs.map_values(|v: VariantDecl| variant_suffix(v))
}

/// The character sequences of a list of strings.
pub open spec fn string_views(ss: Seq<String>) -> Seq<Seq<char>> {
    ss.map_values(|s: String| s@)
}

/// Whether every pair of variants agrees on the numeric suffix.
pub open spec fn all_suffixes_eq(vs: Seq<VariantDecl>) -> bool {
    forall|i: int, j: int|
        0 <= i < vs.len() && 0 <= j < vs.len() ==> variant_suffix(vs[i]) == variant_suffix(vs[j])
}

/// The index of the first variant that fails validation, or `vs.len()` when
/// every variant passes.
pub open spec fn first_issue(vs: Seq<VariantDecl>) -> int
    decreases vs.len(),
{
    if vs.len() == 0 {
        0
    } else if variant_issue(vs[0]) is Some {
        0
    } else {
        1 + first_issue(vs.drop_first())
    }
}

/// The distinct values of `s`, in order of first appearance: the model of
/// the consistency sets the pipeline collects.
pub open spec fn dedup<A>(s: Seq<A>) -> Seq<A>
    decreases s.len(),
{
    if s.len() == 0 {
        Seq::empty()
    } else {
        let d = dedup(s.drop_last());
        if d.contains(s.last()) {
            d
        } else {
            d.push(s.last())
        }
    }
}

/// `dedup` keeps exactly the values of `s`.
proof fn lemma_dedup_contains<A>(s: Seq<A>, x: A)
    ensures
        dedup(s).contains(x) == s.contains(x),
    decreases s.len(),
{
    broadcast use vstd::seq_lib::lemma_seq_contains_after_push;

    if s.len() > 0 {
        let sub = s.drop_last();
        lemma_dedup_contains(sub, x);
        assert(s =~= sub.push(s.last()));
    }
}

/// `dedup` of a non-empty sequence is non-empty and starts with the
/// sequence's first value.
proof fn lemma_dedup_first<A>(s: Seq<A>)
    ensures
        s.len() > 0 ==> dedup(s).len() >= 1 && dedup(s)[0] == s[0],
    decreases s.len(),
{
    if s.len() > 0 {
        let sub = s.drop_last();
        lemma_dedup_first(sub);
        if sub.len() == 0 {
            assert(dedup(sub) =~= Seq::<A>::empty());
            assert(dedup(s) =~= Seq::<A>::empty().push(s.last()));
            assert(s.last() == s[0]);
        }
    }
}

/// When all values of `s` are equal, its set of distinct values has at most
/// one element.
proof fn lemma_dedup_all_eq<A>(s: Seq<A>)
    requires
        forall|i: int, j: int| 0 <= i < s.len() && 0 <= j < s.len() ==> s[i] == s[j],
    ensures
        dedup(s).len() <= 1,
    decreases s.len(),
{
    if s.len() > 0 {
        let sub = s.drop_last();
        assert forall|i: int, j: int|
            0 <= i < sub.len() && 0 <= j < sub.len() implies sub[i] == sub[j] by {
            assert(sub[i] == s[i]);
            assert(sub[j] == s[j]);
        }
        lemma_dedup_all_eq(sub);
        if sub.len() == 0 {
            assert(dedup(sub) =~= Seq::<A>::empty());
        } else {
            lemma_dedup_first(sub);
            assert(sub[0] == s[0]);
            assert(s.last() == s[s.len() - 1]);
            assert(dedup(sub)[0] == s.last());
            assert(dedup(sub).contains(s.last()));
        }
    }
}

/// When the set of distinct values of `s` has at most one element, all
/// values of `s` are equal.
proof fn lemma_dedup_le_one_all_eq<A>(s: Seq<A>)
    requires
        dedup(s).len() <= 1,
    ensures
        forall|i: int, j: int| 0 <= i < s.len() && 0 <= j < s.len() ==> s[i] == s[j],
{
    assert forall|i: int, j: int|
        0 <= i < s.len() && 0 <= j < s.len() implies s[i] == s[j] by {
        lemma_dedup_contains(s, s[i]);
        lemma_dedup_contains(s, s[j]);
        assert(s.contains(s[i]));
        assert(s.contains(s[j]));
        let a = choose|k: int| 0 <= k < dedup(s).len() && dedup(s)[k] == s[i];
        let b = choose|k: int| 0 <= k < dedup(s).len() && dedup(s)[k] == s[j];
        assert(a == 0 && b == 0);
    }
}

/// `first_issue` is the index of the first failing variant.
proof fn lemma_first_issue_at(vs: Seq<VariantDecl>, i: int)
    requires
        0 <= i <= vs.len(),
        forall|j: int| 0 <= j < i ==> variant_issue(vs[j]) is None,
        i < vs.len() ==> variant_issue(vs[i]) is Some,
    ensures
        first_issue(vs) == i,
    decreases vs.len(),
{
    if i == 0 {
        if vs.len() > 0 {
            assert(variant_issue(vs[0]) is Some);
        }
    } else {
        assert(variant_issue(vs[0]) is None);
        let rest = vs.drop_first();
        assert forall|j: int| 0 <= j < i - 1 implies variant_issue(rest[j]) is None by {
            assert(rest[j] == vs[j + 1]);
        }
        if i - 1 < rest.len() {
            assert(rest[i - 1] == vs[i]);
        }
        lemma_first_issue_at(rest, i - 1);
    }
}

/// Round trip at the declaration level: when the arms of a generated
/// conversion mirror variants whose discriminant values are pairwise
/// distinct — as the pipeline's contract guarantees of its output — the
/// declared value of any variant converts back to exactly that variant's
/// arm.
pub proof fn lemma_generate_round_trip(vs: Seq<VariantDecl>, arms: Seq<MatchArm>, i: int)
    requires
        arms.len() == vs.len(),
        forall|j: int| 0 <= j < vs.len() ==> (#[trigger] arms[j]).value == variant_value(vs[j]),
        forall|j: int, k: int|
            0 <= j < vs.len() && 0 <= k < vs.len() && j != k ==> variant_value(vs[j])
                != variant_value(vs[k]),
        0 <= i < vs.len(),
    ensures
        match_index(arms, variant_value(vs[i])) == Some(i),
{
    assert forall|j: int, k: int|
        0 <= j < arms.len() && 0 <= k < arms.len() && j != k implies arms[j].value
        != arms[k].value by {
        assert(arms[j].value == variant_value(vs[j]));
        assert(arms[k].value == variant_value(vs[k]));
    }
    lemma_round_trip(arms, i);
}

/// Whether `ks` holds the kind `k`.
fn contains_kind(ks: &Vec<LitKind>, k: LitKind) -> (r: bool)
    ensures
        r == ks@.contains(k),
{
    let n: usize = ks.len();
    let mut i: usize = 0;
    while i < n
        invariant
            i <= n,
            n == ks@.len(),
            forall|j: int| 0 <= j < i ==> ks@[j] != k,
        decreases n - i,
    {
        if ks[i] == k {
            proof {
                assert(ks@[i as int] == k);
            }
            return true;
        }
        i += 1;
    }
    false
}

/// Whether `ss` holds a string whose characters equal those of `x`.
fn contains_suffix(ss: &Vec<String>, x: &String) -> (r: bool)
    ensures
        r == string_views(ss@).contains(x@),
{
    let n: usize = ss.len();
    let mut i: usize = 0;
    while i < n
        invariant
            i <= n,
            n == ss@.len(),
            forall|j: int| 0 <= j < i ==> ss@[j]@ != x@,
        decreases n - i,
    {
        if ss[i].eq(x) {
            proof {
                assert(string_views(ss@)[i as int] == x@);
            }
            return true;
        }
        i += 1;
    }
    proof {
        assert forall|j: int| 0 <= j < string_views(ss@).len() implies string_views(ss@)[j]
            != x@ by {
            assert(string_views(ss@)[j] == ss@[j]@);
        }
    }
    false
}

/// The generation pipeline.
///
/// Validates `decl` as a C-like enum and assembles its conversion routine:
/// `Ok(Some(..))` carries the routine, `Ok(None)` is the empty output for an
/// enum with zero variants, and every `Err` names the first rule the
/// declaration breaks, in pipeline order — representation extraction, the
/// sum-type check, the per-variant rules in declaration order, suffix
/// consistency, and the match of suffix against declared representation.
pub fn generate(decl: &EnumDeclaration) -> (r: Result<Option<GeneratedConversion>, GenError>)
    ensures
        ({
            let vs = decl_variants(*decl);
            let fi = first_issue(vs);
            let rep = declared_repr(*decl);
            &&& (repr_malformed(*decl) ==> (r matches Err(GenError::StructuralViolation(
                StructuralIssue::MalformedAttribute { enum_name },
            )) && enum_name@ == decl.name@))
            &&& (!repr_malformed(*decl) && !(decl.data is Enum) ==> (r matches Err(
                GenError::StructuralViolation(StructuralIssue::NotAnEnum { name }),
            ) && name@ == decl.name@))
            &&& (!repr_malformed(*decl) && decl.data is Enum && vs.len() == 0 ==> (r matches Ok(o)
                && o is None))
            &&& (!repr_malformed(*decl) && decl.data is Enum && vs.len() > 0 && rep is None ==> (
            r matches Err(GenError::MissingRepresentation { enum_name }) && enum_name@
                == decl.name@))
            &&& (!repr_malformed(*decl) && decl.data is Enum && vs.len() > 0 && rep is Some && fi
                < vs.len() ==> match variant_issue(vs[fi])->Some_0 {
                VariantIssue::HasFields => (r matches Err(GenError::StructuralViolation(
                    StructuralIssue::VariantHasFields { enum_name, variant },
                )) && enum_name@ == decl.name@ && variant@ == vs[fi].name@),
                VariantIssue::NoDiscriminant => (r matches Err(GenError::MissingDiscriminant {
                    variant,
                    issue,
                }) && variant@ == vs[fi].name@ && issue
                    == crate::error::DiscriminantIssue::Absent),
                VariantIssue::NonLiteralDiscriminant => (r matches Err(
                    GenError::MissingDiscriminant { variant, issue },
                ) && variant@ == vs[fi].name@ && issue
                    == crate::error::DiscriminantIssue::NonLiteral),
                VariantIssue::NonIntegerKind => (r matches Err(
                    GenError::UnsupportedDiscriminantKind { variant, kind },
                ) && variant@ == vs[fi].name@ && kind == variant_lit_kind(vs[fi])),
            })
            &&& (!repr_malformed(*decl) && decl.data is Enum && vs.len() > 0 && rep is Some && fi
                == vs.len() && !all_suffixes_eq(vs) ==> (r matches Err(
                GenError::InconsistentDiscriminants { enum_name, kinds, suffixes },
            ) && enum_name@ == decl.name@ && kinds@ == dedup(kind_seq(vs)) && string_views(
                suffixes@,
            ) == dedup(suffix_seq(vs))))
            &&& (!repr_malformed(*decl) && decl.data is Enum && vs.len() > 0 && rep is Some && fi
                == vs.len() && all_suffixes_eq(vs) && lower_seq(variant_suffix(vs[0]))
                != rep->Some_0 ==> (r matches Err(GenError::RepresentationMismatch {
                suffix,
                repr,
            }) && suffix@ == variant_suffix(vs[0]) && repr@ == rep->Some_0))
            &&& (!repr_malformed(*decl) && decl.data is Enum && vs.len() > 0 && rep is Some && fi
                == vs.len() && all_suffixes_eq(vs) && lower_seq(variant_suffix(vs[0]))
                == rep->Some_0 ==> (r matches Ok(o) && o matches Some(gc) && gc.enum_name@
                == decl.name@ && gc.arms@.len() == vs.len() && (forall|i: int|
                0 <= i < vs.len() ==> (#[trigger] gc.arms@[i]).value == variant_value(vs[i])
                    && gc.arms@[i].variant@ == vs[i].name@ && gc.arms@[i].suffix@
                    == variant_suffix(vs[i])) && gc.source_type@ == (if variant_suffix(
                vs[0],
            ).len() == 0 {
                "usize"@
            } else {
                rep->Some_0
            })))
        }),
{
    let repr_opt: Option<String> = match extract_repr_type(decl) {
        Ok(o) => o,
        Err(e) => {
            return Err(e);
        },
    };
    let vs: &Vec<VariantDecl> = match &decl.data {
        Data::Enum(vs) => vs,
        Data::Other => {
            return Err(
                GenError::StructuralViolation(
                    StructuralIssue::NotAnEnum { name: decl.name.clone() },
                ),
            );
        },
    };
    if vs.len() == 0 {
        return Ok(None);
    }
    let repr: String = match repr_opt {
        Some(s) => s,
        None => {
            return Err(GenError::MissingRepresentation { enum_name: decl.name.clone() });
        },
    };
    let ghost gvs: Seq<VariantDecl> = decl_variants(*decl);
    let n: usize = vs.len();
    let mut kinds: Vec<LitKind> = Vec::new();
    let mut suffixes: Vec<String> = Vec::new();
    let mut arms: Vec<MatchArm> = Vec::new();
    let mut i: usize = 0;
    proof {
        assert(gvs.take(0) =~= Seq::<VariantDecl>::empty());
        assert(kind_seq(gvs.take(0)) =~= Seq::<LitKind>::empty());
        assert(suffix_seq(gvs.take(0)) =~= Seq::<Seq<char>>::empty());
        assert(string_views(suffixes@) =~= Seq::<Seq<char>>::empty());
    }
    while i < n
        invariant
            i <= n,
            n == gvs.len(),
            n > 0,
            gvs == decl_variants(*decl),
            vs@ == gvs,
            !repr_malformed(*decl),
            decl.data is Enum,
            declared_repr(*decl) is Some,
            repr@ == declared_repr(*decl)->Some_0,
            forall|j: int| 0 <= j < i ==> variant_issue(gvs[j]) is None,
            kinds@ == dedup(kind_seq(gvs.take(i as int))),
            string_views(suffixes@) == dedup(suffix_seq(gvs.take(i as int))),
            arms@.len() == i,
            forall|j: int|
                0 <= j < i ==> (#[trigger] arms@[j]).value == variant_value(gvs[j])
                    && arms@[j].variant@ == gvs[j].name@ && arms@[j].suffix@ == variant_suffix(
                    gvs[j],
                ),
        decreases n - i,
    {
        let d = match extract_variant_data(&vs[i], &decl.name) {
            Ok(d) => d,
            Err(e) => {
                proof {
                    lemma_first_issue_at(gvs, i as int);
                }
                return Err(e);
            },
        };
        let ghost ks_prev: Seq<LitKind> = kind_seq(gvs.take(i as int));
        let ghost ss_prev: Seq<Seq<char>> = suffix_seq(gvs.take(i as int));
        let ghost ks_new: Seq<LitKind> = kind_seq(gvs.take(i as int + 1));
        let ghost ss_new: Seq<Seq<char>> = suffix_seq(gvs.take(i as int + 1));
        proof {
            assert(ks_new =~= ks_prev.push(variant_lit_kind(gvs[i as int])));
            assert(ss_new =~= ss_prev.push(variant_suffix(gvs[i as int])));
            assert(ks_new.drop_last() =~= ks_prev);
            assert(ss_new.drop_last() =~= ss_prev);
        }
        if !contains_kind(&kinds, d.kind) {
            kinds.push(d.kind);
        }
        let has_suffix = contains_suffix(&suffixes, &d.suffix);
        if !has_suffix {
            suffixes.push(d.suffix);
        }
        proof {
            assert(kinds@ == dedup(ks_new));
            assert(string_views(suffixes@) =~= dedup(ss_new));
        }
        arms.push(d.arm);
        i += 1;
    }
    proof {
        lemma_first_issue_at(gvs, n as int);
        assert(gvs.take(n as int) =~= gvs);
        assert forall|a: int, b: int|
            0 <= a < kind_seq(gvs).len() && 0 <= b < kind_seq(gvs).len() implies kind_seq(gvs)[a]
            == kind_seq(gvs)[b] by {
            assert(variant_issue(gvs[a]) is None);
            assert(variant_issue(gvs[b]) is None);
            assert(kind_seq(gvs)[a] == variant_lit_kind(gvs[a]));
            assert(kind_seq(gvs)[b] == variant_lit_kind(gvs[b]));
        }
        lemma_dedup_all_eq(kind_seq(gvs));
        lemma_dedup_first(kind_seq(gvs));
    }
    if kinds.len() > 1 {
        // Defensive: upstream validation admits only integer literal kinds,
        // so the kind set cannot hold two values.
        proof {
            assert(false);
        }
        return Err(GenError::InternalInvariantViolation);
    }
    if suffixes.len() > 1 {
        proof {
            if all_suffixes_eq(gvs) {
                assert forall|a: int, b: int|
                    0 <= a < suffix_seq(gvs).len() && 0 <= b < suffix_seq(gvs).len() implies
                    suffix_seq(gvs)[a] == suffix_seq(gvs)[b] by {
                    assert(suffix_seq(gvs)[a] == variant_suffix(gvs[a]));
                    assert(suffix_seq(gvs)[b] == variant_suffix(gvs[b]));
                }
                lemma_dedup_all_eq(suffix_seq(gvs));
            }
        }
        return Err(
            GenError::InconsistentDiscriminants {
                enum_name: decl.name.clone(),
                kinds,
                suffixes,
            },
        );
    }
    proof {
        lemma_dedup_le_one_all_eq(suffix_seq(gvs));
        lemma_dedup_first(suffix_seq(gvs));
        assert forall|a: int, b: int|
            0 <= a < gvs.len() && 0 <= b < gvs.len() implies variant_suffix(gvs[a])
            == variant_suffix(gvs[b]) by {
            assert(suffix_seq(gvs)[a] == variant_suffix(gvs[a]));
            assert(suffix_seq(gvs)[b] == variant_suffix(gvs[b]));
        }
    }
    if arms.len() > 0 && (kinds.len() == 0 || suffixes.len() == 0) {
        // Defensive: with at least one validated variant both sets hold its
        // kind and suffix.
        proof {
            assert(false);
        }
        return Err(GenError::InternalInvariantViolation);
    }
    if !(kinds[0] == LitKind::Int) {
        // Defensive: the variant validator admits only integer literals.
        proof {
            assert(kinds@[0] == kind_seq(gvs)[0]);
            assert(false);
        }
        return Err(GenError::InternalInvariantViolation);
    }
    proof {
        assert(suffixes@[0]@ == string_views(suffixes@)[0]);
        assert(suffixes@[0]@ == variant_suffix(gvs[0]));
    }
    if !eq_lowered(suffixes[0].as_str(), repr.as_str()) {
        return Err(
            GenError::RepresentationMismatch { suffix: suffixes[0].clone(), repr },
        );
    }
    let source_type: String = if suffixes[0].as_str().is_empty() {
        "usize".to_owned()
    } else {
        repr
    };
    Ok(
        Some(
            GeneratedConversion {
                enum_name: decl.name.clone(),
                source_type,
                arms,
            },
        ),
    )
}

} // verus!
