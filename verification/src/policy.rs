//! The per-field policy and how a field's markers select it.

use vstd::prelude::*;
use vstd::seq_lib::lemma_seq_contains_after_push;

verus! {

/// How a field of a record is decoded.
#[derive(Debug, Clone, Copy, PartialEq, Eq, Structural)]
pub enum FieldPolicy {
    /// The field must be there and decode, or the record fails.
    Strict,
    /// The field decodes or takes its type's default.
    Lenient,
    /// The field decodes to a value or to none; absence is no error.
    Optional,
}

/// The names of a list of markers.
pub open spec fn marker_names(markers: Seq<String>) -> Seq<Seq<char>> {
    markers.map_values(|m: String| m@)
}

/// The policy that a field's markers select: `optional` before `lenient`,
/// strict where neither is there. Other markers do not count.
pub open spec fn policy_for(names: Seq<Seq<char>>) -> FieldPolicy {
    if names.contains("optional"@) {
        FieldPolicy::Optional
    } else if names.contains("lenient"@) {
        FieldPolicy::Lenient
    } else {
        FieldPolicy::Strict
    }
}

impl FieldPolicy {
    /// The policy for a field that carries the lenient marker, the optional
    /// marker, both or neither.
    pub fn from_markers(lenient: bool, optional: bool) -> (r: FieldPolicy)
        ensures
            r == if optional {
                FieldPolicy::Optional
            } else if lenient {
                FieldPolicy::Lenient
            } else {
                FieldPolicy::Strict
            },
    {
        if optional {
            FieldPolicy::Optional
        } else if lenient {
            FieldPolicy::Lenient
        } else {
            FieldPolicy::Strict
        }
    }

    /// Whether the field's value is wrapped in the shadow record, and so
    /// whether its absence from the input means "use the default".
    pub open spec fn wraps(self) -> bool {
        self != FieldPolicy::Strict
    }

    /// Whether the field is wrapped in the shadow record.
    pub fn is_wrapped(self) -> (r: bool)
        ensures
            r == self.wraps(),
    {
        match self {
            FieldPolicy::Strict => false,
            FieldPolicy::Lenient => true,
            FieldPolicy::Optional => true,
        }
    }
}

/// Reads the policy off a field's markers, in one pass.
pub fn classify(markers: &Vec<String>) -> (r: FieldPolicy)
    ensures
        r == policy_for(marker_names(markers@)),
{
    let lenient_marker = "lenient".to_owned();
    let optional_marker = "optional".to_owned();
    let mut is_lenient = false;
    let mut is_optional = false;
    let ghost names = marker_names(markers@);
    let mut i: usize = 0;
    while i < markers.len()
        invariant
            i <= markers.len(),
            names == marker_names(markers@),
            lenient_marker@ == "lenient"@,
            optional_marker@ == "optional"@,
            is_lenient == names.take(i as int).contains("lenient"@),
            is_optional == names.take(i as int).contains("optional"@),
        decreases markers.len() - i,
    {
        proof {
            let seen = names.take(i as int);
            assert(names.take(i + 1) == seen.push(markers[i as int]@));
            lemma_seq_contains_after_push(seen, markers[i as int]@, "lenient"@);
            lemma_seq_contains_after_push(seen, markers[i as int]@, "optional"@);
            reveal_strlit("lenient");
            reveal_strlit("optional");
            assert("lenient"@.len() != "optional"@.len());
        }
        if markers[i] == lenient_marker {
            is_lenient = true;
        } else if markers[i] == optional_marker {
            is_optional = true;
        }
        i += 1;
    }
    assert(names.take(markers.len() as int) == names);
    FieldPolicy::from_markers(is_lenient, is_optional)
}

} // verus!
