//! The substitutions that fill in the start banner.

use vstd::prelude::*;
use vstd::string::StringExecFns;
use crate::domain::ReplaceParams;

verus! {

/// The text in which every occurrence of `old`, found from the left and
/// without overlap, is replaced by `new`.
pub uninterp spec fn replaced(text: Seq<char>, old: Seq<char>, new: Seq<char>) -> Seq<char>;

/// `str::replace`: a new text in which `new` stands for every match of `old`
/// in `text`. Believed, not proved.
#[verifier::external_body]
fn replace_all(text: &str, old: &str, new: &str) -> (result: String)
    ensures
        result@ == replaced(text@, old@, new@),
{
    text.replace(old, new)
}

/// The text after the substitutions were made one after the other, each on
/// the result of the one before.
pub open spec fn replaced_bulk(text: Seq<char>, params: Seq<ReplaceParams>) -> Seq<char>
    decreases params.len(),
{
    if params.len() == 0 {
        text
    } else {
        replaced(
            replaced_bulk(text, params.drop_last()),
            params.last().old_str@,
            params.last().new_str@,
        )
    }
}

/// Makes the substitutions in `text`, in the order of `params`.
pub fn replace_bulk(text: String, params: &Vec<ReplaceParams>) -> (result: String)
    ensures
        result@ == replaced_bulk(text@, params@),
{
    let mut result = text;
    let mut i: usize = 0;
    while i < params.len()
        invariant
            i <= params.len(),
            result@ == replaced_bulk(text@, params@.take(i as int)),
        decreases params.len() - i,
    {
        proof {
            let next = params@.take(i + 1);
            assert(next.drop_last() =~= params@.take(i as int));
            assert(next.last() == params@[i as int]);
        }
        result = replace_all(result.as_str(), params[i].old_str.as_str(), params[i].new_str.as_str());
        i += 1;
    }
    assert(params@.take(i as int) =~= params@);
    result
}

/// The substitution that puts the version where the banner says `[VERSION]`.
pub fn version_params(version: &str) -> (params: Vec<ReplaceParams>)
    ensures
        params@.len() == 1,
        params@[0].old_str@ == "[VERSION]"@,
        params@[0].new_str@ == version@,
{
    let mut params: Vec<ReplaceParams> = Vec::new();
    params.push(
        ReplaceParams {
            old_str: String::from_str("[VERSION]"),
            new_str: String::from_str(version),
        },
    );
    params
}

} // verus!
