//! The emitted artifact and its runtime meaning.
//!
//! The emitter assembles the conversion routine as data: one match arm per
//! variant and the source integer type of the conversion. [`convert`] gives
//! that data its runtime meaning — exactly what the spliced-in code does
//! when the host toolchain renders the arms as a `match` — and the lemmas
//! state the laws the routine obeys.

use vstd::prelude::*;

use crate::try_from_int_error::TryFromIntError;

verus! {

/// One arm of the generated match: the discriminant `value`, written with
/// the numeric `suffix`, maps to the variant named `variant`.
#[derive(Debug)]
pub struct MatchArm {
    pub value: u128,
    pub suffix: String,
    pub variant: String,
}

/// The generated conversion routine, as data: a fallible conversion from
/// `source_type` to the enum `enum_name`, with one arm per variant and a
/// catch-all producing [`TryFromIntError`] on the unmatched value.
#[derive(Debug)]
pub struct GeneratedConversion {
    pub enum_name: String,
    pub source_type: String,
    pub arms: Vec<MatchArm>,
}

/// The index of the first arm whose value equals `v`, if any: the arm the
/// generated match takes.
pub open spec fn match_index(arms: Seq<MatchArm>, v: u128) -> Option<int>
    decreases arms.len(),
{
    if arms.len() == 0 {
        None
    } else if arms[0].value == v {
        Some(0)
    } else {
        match match_index(arms.drop_first(), v) {
            Some(i) => Some(i + 1),
            None => None,
        }
    }
}

/// `match_index` picks the first matching arm: the returned index is the
/// least one whose value equals `v`, and `None` means no arm matches.
pub proof fn lemma_match_index(arms: Seq<MatchArm>, v: u128)
    ensures
        match match_index(arms, v) {
            Option::Some(i) => 0 <= i < arms.len() && arms[i].value == v && (forall|j: int|
                0 <= j < i ==> arms[j].value != v),
            Option::None => forall|j: int| 0 <= j < arms.len() ==> arms[j].value != v,
        },
    decreases arms.len(),
{
    if arms.len() > 0 && arms[0].value != v {
        let rest = arms.drop_first();
        lemma_match_index(rest, v);
        assert(forall|j: int| 1 <= j < arms.len() ==> arms[j] == #[trigger] rest[j - 1]);
        match match_index(rest, v) {
            Option::Some(i) => {
                assert(arms[i + 1] == rest[i]);
                assert(forall|j: int| 0 <= j < i + 1 ==> arms[j].value != v) by {
                    assert(forall|j: int| 1 <= j < i + 1 ==> #[trigger] arms[j] == rest[j - 1]);
                }
            },
            Option::None => {
                assert(forall|j: int| 0 <= j < arms.len() ==> arms[j].value != v) by {
                    assert(forall|j: int| 1 <= j < arms.len() ==> #[trigger] arms[j] == rest[j - 1]);
                }
            },
        }
    }
}

/// Round trip: in a routine whose arm values are distinct, converting the
/// declared value of any arm yields exactly that arm's variant.
pub proof fn lemma_round_trip(arms: Seq<MatchArm>, i: int)
    requires
        0 <= i < arms.len(),
        forall|j: int, k: int|
            0 <= j < arms.len() && 0 <= k < arms.len() && j != k ==> arms[j].value != arms[k].value,
    ensures
        match_index(arms, arms[i].value) == Some(i),
{
    lemma_match_index(arms, arms[i].value);
}

/// A value that no arm declares is reported as a conversion failure
/// carrying exactly that value.
pub proof fn lemma_unmatched(arms: Seq<MatchArm>, v: u128)
    requires
        forall|j: int| 0 <= j < arms.len() ==> arms[j].value != v,
    ensures
        match_index(arms, v) is None,
{
    lemma_match_index(arms, v);
}

/// Runs the generated conversion on `value`.
///
/// The first arm whose declared value equals `value` yields its variant's
/// name; when no arm matches, the conversion fails with the error value
/// carrying `value`.
pub fn convert(gc: &GeneratedConversion, value: u128) -> (r: Result<String, TryFromIntError<u128>>)
    ensures
        match match_index(gc.arms@, value) {
            Option::Some(i) => r matches Ok(name) && name@ == gc.arms@[i].variant@,
            Option::None => r matches Err(e) && e.0 == value,
        },
{
    let n = gc.arms.len();
    let mut i: usize = 0;
    while i < n
        invariant
            i <= n,
            n == gc.arms@.len(),
            forall|j: int| 0 <= j < i ==> gc.arms@[j].value != value,
        decreases n - i,
    {
        if gc.arms[i].value == value {
            proof {
                lemma_match_index(gc.arms@, value);
            }
            return Ok(gc.arms[i].variant.clone());
        }
        i += 1;
    }
    proof {
        lemma_match_index(gc.arms@, value);
    }
    Err(TryFromIntError(value))
}

} // verus!
