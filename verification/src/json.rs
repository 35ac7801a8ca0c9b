//! Canonical JSON text, as `serde_json` writes it.

use vstd::prelude::*;

verus! {

/// The compact text that `serde_json` prints for the document it parses
/// from `source`, or `None` where `source` is not one JSON document.
pub uninterp spec fn json_compact(source: Seq<char>) -> Option<Seq<char>>;

/// Parses `source` with `serde_json::from_str` into a `serde_json::Value`
/// and prints the value with its `Display` impl, which is the compact form.
///
/// Trusted: the contract only gives the outcome its name, [`json_compact`].
/// The parser refuses documents nested deeper than its recursion limit, so
/// the call returns on every input.
#[verifier::external_body]
pub(crate) fn reformat_json(source: &str) -> (r: Option<String>)
    ensures
        r matches Some(t) ==> json_compact(source@) == Some(t@),
        r is None ==> json_compact(source@) is None,
{
    match serde_json::from_str::<serde_json::Value>(source) {
        Ok(value) => Some(value.to_string()),
        Err(_) => None,
    }
}

} // verus!
