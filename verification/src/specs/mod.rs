use vstd::prelude::*;
use crate::errors::{ParseFileError, SecParError};
use crate::text::{split_at_colon, split_once_colon};

verus! {

/// The contents of a Parameter Store YAML spec file.
///
/// Each entry in `parameters` is a colon-separated `name:value` string:
///
/// ```yaml
/// parameters:
///   - /secpar/TEST:TEST_VALUE
///   - /secpar/qa/SASL_USERNAME:USERNAME
/// ```
#[derive(Debug, Clone, PartialEq)]
pub struct ParameterStore {
    pub parameters: Vec<String>,
}

impl Default for ParameterStore {
    fn default() -> (r: Self)
        ensures
            r.parameters@.len() == 0,
    {
        ParameterStore { parameters: Vec::new() }
    }
}

impl ParameterStore {
    /// Builds a `ParameterStore` from the outcome of reading and
    /// deserializing the spec file: the store itself when that succeeded,
    /// and [`SecParError::InvalidSpec`] around the read error otherwise.
    pub fn new(read: Result<ParameterStore, ParseFileError>) -> (r: Result<Self, SecParError>)
        ensures
            match read {
                Ok(store) => r == Ok::<ParameterStore, SecParError>(store),
                Err(e) => r == Err::<ParameterStore, SecParError>(SecParError::InvalidSpec(e)),
            },
    {
        match read {
            Ok(content) => Ok(content),
            Err(e) => Err(SecParError::InvalidSpec(e)),
        }
    }
}

/// The `(name, value)` pairs that the entries of a spec file ask for, in the
/// order of the entries: each entry is split at its first colon, and an entry
/// without a colon is skipped.
pub open spec fn apply_plan_spec(entries: Seq<Seq<char>>) -> Seq<(Seq<char>, Seq<char>)> {
    entries.filter_map(|e: Seq<char>| split_at_colon(e))
}

/// The `(name, value)` pairs to put for the entries of a spec file.
pub fn apply_plan(entries: &Vec<String>) -> (plan: Vec<(String, String)>)
    ensures
        plan.deep_view() == apply_plan_spec(entries.deep_view()),
{
    let mut plan: Vec<(String, String)> = Vec::new();
    let n = entries.len();
    let ghost ev = entries.deep_view();
    for i in 0..n
        invariant
            n == entries.len(),
            ev == entries.deep_view(),
            plan.deep_view() == apply_plan_spec(ev.take(i as int)),
    {
        let split = split_once_colon(entries[i].as_str());
        proof {
            assert(ev.take(i + 1).drop_last() =~= ev.take(i as int));
            assert(ev.take(i + 1).last() == entries[i as int]@);
        }
        match split {
            Some(pair) => {
                plan.push(pair);
                assert(plan.deep_view() =~= apply_plan_spec(ev.take(i + 1)));
            },
            None => {
                assert(plan.deep_view() =~= apply_plan_spec(ev.take(i + 1)));
            },
        }
    }
    assert(ev.take(n as int) =~= ev);
    plan
}

} // verus!
