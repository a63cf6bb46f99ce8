//! The language-model service: which provider serves a model.

pub mod config;

use vstd::prelude::*;

verus! {

/// The lower-case form of a text, as `str::to_lowercase` gives it.
pub uninterp spec fn lowercase(text: Seq<char>) -> Seq<char>;

/// Whether `needle` occurs in `hay` as a run of consecutive characters.
pub open spec fn occurs_in(needle: Seq<char>, hay: Seq<char>) -> bool {
    exists|at: int|
        0 <= at && at + needle.len() <= hay.len() && #[trigger] hay.subrange(
            at,
            at + needle.len(),
        ) == needle
}

/// The provider that serves a model, by the model's name in lower case.
pub open spec fn provider_for(model_lower: Seq<char>) -> Seq<char> {
    if occurs_in("gigachat"@, model_lower) {
        "gigachat"@
    } else if occurs_in("deepseek"@, model_lower) {
        "deepseek"@
    } else {
        "unknown"@
    }
}

/// `str::to_lowercase`: the text with each character replaced by its
/// lower-case form. The result is named, not spelled out.
#[verifier::external_body]
pub(crate) fn to_lowercase(text: &str) -> (lower: String)
    ensures
        lower@ == lowercase(text@),
{
    text.to_lowercase()
}

/// `str::contains` with a string pattern: whether the pattern matches a
/// sub-slice of the text.
#[verifier::external_body]
pub(crate) fn contains(hay: &str, needle: &str) -> (found: bool)
    ensures
        found == occurs_in(needle@, hay@),
{
    hay.contains(needle)
}

/// The provider that serves the model whose name, in lower case, is
/// `model_lower`.
pub fn provider_from_lowercase(model_lower: &str) -> (provider: String)
    ensures
        provider@ == provider_for(model_lower@),
{
    if contains(model_lower, "gigachat") {
        "gigachat".to_owned()
    } else if contains(model_lower, "deepseek") {
        "deepseek".to_owned()
    } else {
        "unknown".to_owned()
    }
}

/// The provider that serves `model`: "gigachat" or "deepseek" where the
/// model's name holds that word in any mix of cases, "unknown" otherwise.
pub fn get_provider_from_model(model: &str) -> (provider: String)
    ensures
        provider@ == provider_for(lowercase(model@)),
{
    let model_lower = to_lowercase(model);
    provider_from_lowercase(model_lower.as_str())
}

} // verus!
