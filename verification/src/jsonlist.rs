//! The JSON-encoded string lists the application table stores in its
//! `redirect_uris` and `grant_types` columns, behind named serde results,
//! and the exact-membership check the authorization endpoint performs.

use vstd::prelude::*;

verus! {

/// What parsing a JSON array of strings yields, or `None` on malformed
/// input: a function of the text alone.
pub uninterp spec fn json_string_list_of(s: Seq<char>) -> Option<Seq<Seq<char>>>;

/// The JSON text a list of strings encodes to: a function of the list alone.
pub uninterp spec fn json_of_string_list(l: Seq<Seq<char>>) -> Seq<char>;

/// Relies on serde_json's `from_str::<Vec<String>>`: deterministic parsing
/// of a JSON array of strings.
#[verifier::external_body]
pub(crate) fn parse_string_list(s: &str) -> (r: Option<Vec<String>>)
    ensures
        r is Some <==> json_string_list_of(s@) is Some,
        r matches Some(v) ==> json_string_list_of(s@) == Some(v.deep_view()),
{
    match serde_json::from_str::<Vec<String>>(s) {
        Ok(v) => Some(v),
        Err(_) => None,
    }
}

/// Relies on serde_json's `to_string` for a list of strings: deterministic
/// encoding. `None` stands for an encoder fault, which serde documents not
/// to occur for string data.
#[verifier::external_body]
pub(crate) fn encode_string_list(v: &Vec<String>) -> (r: Option<String>)
    ensures
        r matches Some(s) ==> s@ == json_of_string_list(v.deep_view()),
{
    match serde_json::to_string(v) {
        Ok(s) => Some(s),
        Err(_) => None,
    }
}

/// Whether `x` is literally one of the strings of `l`: the exact-match rule
/// redirect URIs are held to, with no normalization.
pub open spec fn spec_string_list_contains(l: Seq<Seq<char>>, x: Seq<char>) -> bool {
    exists|i: int| 0 <= i < l.len() && l[i] == x
}

/// Exact string membership in a list.
pub fn string_list_contains(v: &Vec<String>, x: &str) -> (r: bool)
    ensures
        r == spec_string_list_contains(v.deep_view(), x@),
{
    let n = v.len();
    let mut i: usize = 0;
    while i < n
        invariant
            n == v@.len(),
            0 <= i <= n,
            forall|j: int| 0 <= j < i ==> v.deep_view()[j] != x@,
        decreases n - i,
    {
        if v[i].as_str().eq(x) {
            proof {
                assert(v.deep_view()[i as int] == v@[i as int]@);
            }
            return true;
        }
        proof {
            assert(v.deep_view()[i as int] == v@[i as int]@);
        }
        i = i + 1;
    }
    false
}

} // verus!
