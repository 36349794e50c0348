//! Urls built by appending query pairs to a configured address.

use vstd::prelude::*;

verus! {

/// The abstract value of a list of query pairs.
pub open spec fn pairs_view(pairs: Seq<(String, String)>) -> Seq<(Seq<char>, Seq<char>)> {
    pairs.map_values(|p: (String, String)| (p.0@, p.1@))
}

/// The text of the url read from `base` with the query pairs appended in order, or the text of
/// the error met reading `base` as a url.
pub uninterp spec fn url_with_query_pairs(base: Seq<char>, pairs: Seq<(Seq<char>, Seq<char>)>) -> Result<
    Seq<char>,
    Seq<char>,
>;

/// Appends query pairs to a url.
///
/// Calls `url::Url::parse`, then `Url::query_pairs_mut().append_pair` for each pair in order,
/// then `Url::to_string` (through `Display`); on failure, the `Display` of the parse error. The
/// claim is that the outcome depends on the base and the pairs alone.
#[verifier::external_body]
pub(crate) fn append_query_pairs(base: &str, pairs: &Vec<(String, String)>) -> (link: Result<String, String>)
    ensures
        match link {
            Ok(text) => url_with_query_pairs(base@, pairs_view(pairs@)) == Ok::<Seq<char>, Seq<char>>(text@),
            Err(message) => url_with_query_pairs(base@, pairs_view(pairs@)) == Err::<Seq<char>, Seq<char>>(message@),
        },
{
    match url::Url::parse(base) {
        Ok(mut parsed) => {
            {
                let mut query = parsed.query_pairs_mut();
                for (key, value) in pairs.iter() {
                    query.append_pair(key, value);
                }
            }
            Ok(parsed.to_string())
        },
        Err(error) => Err(error.to_string()),
    }
}

} // verus!
