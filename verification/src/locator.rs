//! URLs: resolving a path against the base URL, and serialising a query.
//! Both are the work of the `url` crate.

use vstd::prelude::*;
use vstd::string::*;
use crate::error::KaggleError;
use crate::request::{field_pairs, FormField};

verus! {

/// The error of the `url` parser, carried through as it is.
#[verifier::external_type_specification]
#[verifier::external_body]
pub struct ExParseError(url::ParseError);

/// The URL that `Url::join` makes of `reference`, called on the URL that
/// `Url::parse` reads from `base`, in its serialised form; `None` where either
/// of the two fails.
pub uninterp spec fn joined_url(base: Seq<char>, reference: Seq<char>) -> Option<Seq<char>>;

/// What `form_urlencoded::Serializer` writes for the pairs, in order:
/// the `application/x-www-form-urlencoded` form of a query.
pub uninterp spec fn form_urlencoded(pairs: Seq<(Seq<char>, Seq<char>)>) -> Seq<char>;

/// Whether the `application/x-www-form-urlencoded` form leaves the character
/// as it is: an ASCII letter or digit, `*`, `-`, `.` or `_`.
pub open spec fn unchanged_char(c: char) -> bool {
    let code = c as u32;
    ||| code == 42
    ||| code == 45
    ||| code == 46
    ||| 48 <= code <= 57
    ||| 65 <= code <= 90
    ||| code == 95
    ||| 97 <= code <= 122
}

/// Whether the form leaves every character of the text as it is.
pub open spec fn plain_text(text: Seq<char>) -> bool {
    forall|i: int| 0 <= i < text.len() ==> unchanged_char(#[trigger] text[i])
}

/// Whether the form leaves every name and every value as it is.
pub open spec fn plain_pairs(pairs: Seq<(Seq<char>, Seq<char>)>) -> bool {
    forall|i: int|
        0 <= i < pairs.len() ==> plain_text((#[trigger] pairs[i]).0) && plain_text(pairs[i].1)
}

/// The pairs as `name=value`, with `&` between them.
pub open spec fn joined_pairs(pairs: Seq<(Seq<char>, Seq<char>)>) -> Seq<char>
    decreases pairs.len(),
{
    if pairs.len() == 0 {
        Seq::empty()
    } else if pairs.len() == 1 {
        pairs[0].0 + "="@ + pairs[0].1
    } else {
        joined_pairs(pairs.drop_last()) + "&"@ + pairs.last().0 + "="@ + pairs.last().1
    }
}

/// Calls `Url::parse` on `base` and `Url::join` on the result. The contract
/// claims only that the outcome is the one that `joined_url` names for the
/// two texts.
#[verifier::external_body]
fn resolve(base: &str, reference: &str) -> (r: Result<String, url::ParseError>)
    ensures
        match r {
            Ok(url) => joined_url(base@, reference@) == Some(url@),
            Err(_) => joined_url(base@, reference@) is None,
        },
{
    let base = url::Url::parse(base)?;
    let joined = base.join(reference)?;
    Ok(joined.into())
}

/// Calls `form_urlencoded::Serializer::extend_pairs` on an empty string and
/// returns what `finish` hands back. The contract claims that the text is
/// the one that `form_urlencoded` names for these pairs, and that names and
/// values made of letters, digits, `*`, `-`, `.` and `_` alone come out as
/// they went in, as `name=value` with `&` between the pairs.
#[verifier::external_body]
fn serialize_pairs(pairs: &Vec<FormField>) -> (r: String)
    ensures
        r@ == form_urlencoded(field_pairs(pairs@)),
        plain_pairs(field_pairs(pairs@)) ==> r@ == joined_pairs(field_pairs(pairs@)),
{
    url::form_urlencoded::Serializer::new(String::new()).extend_pairs(
        pairs.iter().map(|field| (field.name.as_str(), field.value.as_str())),
    ).finish()
}

/// A path with a query behind it, after a `?`; the path alone where the
/// query is empty.
pub open spec fn attached(path: Seq<char>, query: Seq<char>) -> Seq<char> {
    if query.len() == 0 {
        path
    } else {
        path + "?"@ + query
    }
}

/// A path with the query for `pairs` behind it.
pub open spec fn with_query(path: Seq<char>, pairs: Seq<(Seq<char>, Seq<char>)>) -> Seq<char> {
    attached(path, form_urlencoded(pairs))
}

/// Resolves `reference` against `base`. Fails with `InvalidUrl` exactly where
/// the two do not make a URL.
pub fn join_url(base: &str, reference: &str) -> (r: Result<String, KaggleError>)
    ensures
        match joined_url(base@, reference@) {
            Some(url) => r matches Ok(text) && text@ == url,
            None => r == Err::<String, KaggleError>(KaggleError::InvalidUrl),
        },
{
    match resolve(base, reference) {
        Ok(url) => Ok(url),
        Err(_) => Err(KaggleError::InvalidUrl),
    }
}

/// A query of at least one pair is not empty.
pub proof fn lemma_joined_pairs_nonempty(pairs: Seq<(Seq<char>, Seq<char>)>)
    requires
        pairs.len() > 0,
    ensures
        joined_pairs(pairs).len() > 0,
{
    reveal_strlit("=");
}

/// Puts a query that is already serialised behind a path.
pub fn attach_query(path: &str, query: &str) -> (r: String)
    ensures
        r@ == attached(path@, query@),
{
    if query.is_empty() {
        path.to_owned()
    } else {
        path.to_owned().concat("?").concat(query)
    }
}

/// Puts the query for `pairs` behind `path`. Where the form leaves every name
/// and value as it is, the query is the pairs as `name=value` with `&`
/// between them.
pub fn append_query(path: &str, pairs: &Vec<FormField>) -> (r: String)
    ensures
        r@ == with_query(path@, field_pairs(pairs@)),
        plain_pairs(field_pairs(pairs@)) && pairs@.len() > 0 ==> r@ == path@ + "?"@
            + joined_pairs(field_pairs(pairs@)),
{
    proof {
        if pairs@.len() > 0 {
            lemma_joined_pairs_nonempty(field_pairs(pairs@));
        }
    }
    let query = serialize_pairs(pairs);
    attach_query(path, query.as_str())
}

} // verus!
