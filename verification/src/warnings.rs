//! Normalizing the warnings the two status calls report.
//!
//! Depending on its version, the chain daemon reports warnings as a single
//! string, an array of strings, or other JSON shapes. Each shape is
//! normalized to at most one line; the lines of both calls are then merged
//! into one optional summary.

use vstd::prelude::*;
use vstd::string::StringExecFns;

use crate::text::{names, trim_of, trim_string};

verus! {

/// A JSON scalar as a warnings entry may carry it: null, a string, or any
/// other value already rendered to text.
#[derive(Debug)]
pub enum JsonScalar {
    /// JSON null.
    Null,
    /// A JSON string.
    Text(String),
    /// Any other JSON value, rendered to text.
    Rendered(String),
}

/// The warnings field of an upstream status response.
#[derive(Debug)]
pub enum WarningsField {
    /// A single warning string.
    Text(String),
    /// A list of warning strings.
    Items(Vec<String>),
    /// A list of arbitrary JSON values.
    Mixed(Vec<JsonScalar>),
    /// Any other value: absent for null, otherwise rendered to text.
    Other(Option<String>),
}

/// Joins parts with the separator " · ".
pub open spec fn spec_join_parts(parts: Seq<Seq<char>>) -> Seq<char>
    decreases parts.len(),
{
    if parts.len() == 0 {
        Seq::empty()
    } else if parts.len() == 1 {
        parts[0]
    } else {
        spec_join_parts(parts.drop_last()) + " · "@ + parts.last()
    }
}

/// Trims every string and keeps the non-empty results, in order.
pub open spec fn spec_trimmed_parts(v: Seq<String>) -> Seq<Seq<char>>
    decreases v.len(),
{
    if v.len() == 0 {
        Seq::empty()
    } else {
        spec_trimmed_parts(v.drop_last()) + (if trim_of(v.last()@).len() > 0 {
            seq![trim_of(v.last()@)]
        } else {
            Seq::<Seq<char>>::empty()
        })
    }
}

/// The text a JSON scalar contributes: strings are trimmed, other values
/// are kept as rendered, and null contributes nothing.
pub open spec fn spec_scalar_text(j: JsonScalar) -> Seq<char> {
    match j {
        JsonScalar::Null => Seq::empty(),
        JsonScalar::Text(s) => trim_of(s@),
        JsonScalar::Rendered(r) => r@,
    }
}

/// Keeps the non-null entries whose text is non-empty, in order.
pub open spec fn spec_mixed_parts(v: Seq<JsonScalar>) -> Seq<Seq<char>>
    decreases v.len(),
{
    if v.len() == 0 {
        Seq::empty()
    } else {
        spec_mixed_parts(v.drop_last()) + (if !(v.last() is Null) && spec_scalar_text(
            v.last(),
        ).len() > 0 {
            seq![spec_scalar_text(v.last())]
        } else {
            Seq::<Seq<char>>::empty()
        })
    }
}

/// The joined parts, or nothing when no part remains.
pub open spec fn spec_join_or_none(parts: Seq<Seq<char>>) -> Option<Seq<char>> {
    if parts.len() == 0 {
        None
    } else {
        Some(spec_join_parts(parts))
    }
}

/// What a warnings field normalizes to.
pub open spec fn spec_normalized_warning(w: WarningsField) -> Option<Seq<char>> {
    match w {
        WarningsField::Text(s) => if trim_of(s@).len() == 0 {
            None
        } else {
            Some(trim_of(s@))
        },
        WarningsField::Items(v) => spec_join_or_none(spec_trimmed_parts(v@)),
        WarningsField::Mixed(v) => spec_join_or_none(spec_mixed_parts(v@)),
        WarningsField::Other(o) => match o {
            None => None,
            Some(r) => Some(r@),
        },
    }
}

/// Joins collected parts with " · ", or reports that none remain.
fn join_parts(parts: Vec<String>) -> (r: Option<String>)
    ensures
        match r {
            Some(s) => parts@.len() > 0 && s@ == spec_join_parts(names(parts@)),
            None => parts@.len() == 0,
        },
{
    if parts.len() == 0 {
        return None;
    }
    let mut s = parts[0].clone();
    let n = parts.len();
    proof {
        assert(names(parts@).take(1) =~= seq![parts@[0]@]);
    }
    for i in 1..n
        invariant
            n == parts@.len(),
            1 <= i <= n,
            s@ == spec_join_parts(names(parts@).take(i as int)),
    {
        s.append(" · ");
        s.append(parts[i].as_str());
        proof {
            let pre = names(parts@).take(i + 1);
            assert(pre.drop_last() =~= names(parts@).take(i as int));
            assert(s@ =~= spec_join_parts(pre.drop_last()) + " · "@ + pre.last());
        }
    }
    proof {
        assert(names(parts@).take(n as int) =~= names(parts@));
    }
    Some(s)
}

impl WarningsField {
    /// Normalizes the field to at most one warning line: strings are
    /// trimmed, empty entries and null values dropped, and what remains
    /// joined with " · ".
    pub fn into_optional_string(self) -> (r: Option<String>)
        ensures
            match r {
                Some(s) => spec_normalized_warning(self) == Some(s@),
                None => spec_normalized_warning(self) is None,
            },
    {
        match self {
            WarningsField::Text(s) => {
                let trimmed = trim_string(s.as_str());
                if trimmed.as_str().is_empty() {
                    None
                } else {
                    Some(trimmed)
                }
            },
            WarningsField::Items(items) => {
                let mut parts: Vec<String> = Vec::new();
                let n = items.len();
                for i in 0..n
                    invariant
                        n == items@.len(),
                        names(parts@) =~= spec_trimmed_parts(items@.take(i as int)),
                {
                    let t = trim_string(items[i].as_str());
                    if !t.as_str().is_empty() {
                        parts.push(t);
                    }
                    proof {
                        assert(items@.take(i + 1).drop_last() =~= items@.take(i as int));
                        assert(items@.take(i + 1).last() == items@[i as int]);
                        assert(names(parts@) =~= spec_trimmed_parts(items@.take(i + 1)));
                    }
                }
                proof {
                    assert(items@.take(n as int) =~= items@);
                }
                join_parts(parts)
            },
            WarningsField::Mixed(items) => {
                let mut parts: Vec<String> = Vec::new();
                let n = items.len();
                for i in 0..n
                    invariant
                        n == items@.len(),
                        names(parts@) =~= spec_mixed_parts(items@.take(i as int)),
                {
                    match &items[i] {
                        JsonScalar::Null => {},
                        JsonScalar::Text(s) => {
                            let t = trim_string(s.as_str());
                            if !t.as_str().is_empty() {
                                parts.push(t);
                            }
                        },
                        JsonScalar::Rendered(rendered) => {
                            if !rendered.as_str().is_empty() {
                                parts.push(rendered.clone());
                            }
                        },
                    }
                    proof {
                        assert(items@.take(i + 1).drop_last() =~= items@.take(i as int));
                        assert(items@.take(i + 1).last() == items@[i as int]);
                        assert(names(parts@) =~= spec_mixed_parts(items@.take(i + 1)));
                    }
                }
                proof {
                    assert(items@.take(n as int) =~= items@);
                }
                join_parts(parts)
            },
            WarningsField::Other(o) => o,
        }
    }
}

/// Merges the normalized warnings of several sources into one line: every
/// present, non-empty warning is trimmed and joined with " · ".
pub fn merge_warnings(values: Vec<Option<Option<String>>>) -> (r: Option<String>)
    ensures
        match r {
            Some(s) => spec_merge_warnings(values@) == Some(s@),
            None => spec_merge_warnings(values@) is None,
        },
{
    let mut parts: Vec<String> = Vec::new();
    let n = values.len();
    for i in 0..n
        invariant
            n == values@.len(),
            names(parts@) =~= spec_merge_parts(values@.take(i as int)),
    {
        match &values[i] {
            Some(Some(s)) => {
                let t = trim_string(s.as_str());
                if !t.as_str().is_empty() {
                    parts.push(t);
                }
            },
            _ => {},
        }
        proof {
            assert(values@.take(i + 1).drop_last() =~= values@.take(i as int));
            assert(values@.take(i + 1).last() == values@[i as int]);
            assert(names(parts@) =~= spec_merge_parts(values@.take(i + 1)));
        }
    }
    proof {
        assert(values@.take(n as int) =~= values@);
    }
    join_parts(parts)
}

/// Flattens the sources, trims each warning, keeps the non-empty ones.
pub open spec fn spec_merge_parts(values: Seq<Option<Option<String>>>) -> Seq<Seq<char>>
    decreases values.len(),
{
    if values.len() == 0 {
        Seq::empty()
    } else {
        spec_merge_parts(values.drop_last()) + (match values.last() {
            Some(Some(s)) => if trim_of(s@).len() > 0 {
                seq![trim_of(s@)]
            } else {
                Seq::<Seq<char>>::empty()
            },
            _ => Seq::<Seq<char>>::empty(),
        })
    }
}

/// What the merged warnings of several sources are.
pub open spec fn spec_merge_warnings(values: Seq<Option<Option<String>>>) -> Option<Seq<char>> {
    spec_join_or_none(spec_merge_parts(values))
}

} // verus!
