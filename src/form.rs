use vstd::prelude::*;
use vstd::string::StringExecFns;

verus! {

/// One decoded `name=value` pair of a form body.
pub type FormPair = (Seq<char>, Seq<char>);

/// The pairs that `form_urlencoded::parse` decodes from a body, in order.
pub uninterp spec fn form_pairs_of(body: Seq<u8>) -> Seq<FormPair>;

/// The text that `str::to_lowercase` makes of a string.
pub uninterp spec fn lower_of(s: Seq<char>) -> Seq<char>;

/// The media type that a form body is sent with.
pub open spec fn form_media_type() -> Seq<char> {
    "application/x-www-form-urlencoded"@
}

/// How many pairs are named `key`.
pub open spec fn count_key(pairs: Seq<FormPair>, key: Seq<char>) -> nat
    decreases pairs.len(),
{
    if pairs.len() == 0 {
        0
    } else {
        count_key(pairs.drop_last(), key) + if pairs.last().0 == key { 1nat } else { 0nat }
    }
}

/// The value of the last pair named `key` (empty where there is none).
pub open spec fn value_of(pairs: Seq<FormPair>, key: Seq<char>) -> Seq<char>
    decreases pairs.len(),
{
    if pairs.len() == 0 {
        Seq::empty()
    } else if pairs.last().0 == key {
        pairs.last().1
    } else {
        value_of(pairs.drop_last(), key)
    }
}

/// Relies on form_urlencoded::parse (with `into_owned`): the body's
/// `&`-separated pairs, split at the first `=`, with `+` read as a space and
/// percent escapes decoded; an empty body holds no pair.
#[verifier::external_body]
pub(crate) fn decode_pairs(body: &[u8]) -> (r: Vec<(String, String)>)
    ensures
        r.deep_view() == form_pairs_of(body@),
        body@.len() == 0 ==> r@.len() == 0,
{
    form_urlencoded::parse(body).into_owned().collect()
}

/// Relies on str::to_lowercase: the lower-case form of the text, which
/// depends on the text alone.
#[verifier::external_body]
fn lowercase(s: &str) -> (r: String)
    ensures
        r@ == lower_of(s@),
{
    s.to_lowercase()
}

/// Whether an already lower-cased media type is the one of form bodies.
pub fn is_form_media_type(lowered: &str) -> (r: bool)
    ensures
        r == (lowered@ == form_media_type()),
{
    let given = lowered.to_owned();
    let expected = <String as StringExecFns>::from_str("application/x-www-form-urlencoded");
    given == expected
}

/// Whether a request's media type, in any case, is the one of form bodies.
pub fn accepts_media_type(content_type: &str) -> (r: bool)
    ensures
        r == (lower_of(content_type@) == form_media_type()),
{
    let lowered = lowercase(content_type);
    is_form_media_type(lowered.as_str())
}

} // verus!
