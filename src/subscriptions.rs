use vstd::prelude::*;
use vstd::string::StringExecFns;

use crate::form::{
    accepts_media_type, count_key, decode_pairs, form_media_type, form_pairs_of, lower_of,
    value_of, FormPair,
};

verus! {

/// The largest form body, in bytes, that a subscription request may carry.
pub const FORM_LIMIT: usize = 16384;

/// What a subscription form holds.
pub struct Info {
    pub email: String,
    pub name: String,
}

/// Why a subscription request was turned away before anything was stored.
#[derive(Clone, Copy, Debug, PartialEq, Eq, Structural)]
pub enum FormError {
    /// The request does not say that it carries a form body.
    UnsupportedMediaType,
    /// The body is longer than `FORM_LIMIT`.
    PayloadTooLarge,
    /// A field of the form is given more than once.
    DuplicateField,
    /// The form has no `email` field.
    MissingEmail,
    /// The form has no `name` field.
    MissingName,
}

impl FormError {
    /// The HTTP status that the request is answered with.
    pub fn status(&self) -> (r: u16)
        ensures
            r == status_of(*self),
    {
        match self {
            FormError::UnsupportedMediaType => 415,
            FormError::PayloadTooLarge => 413,
            _ => 400,
        }
    }
}

/// The HTTP status that answers a refused request.
pub open spec fn status_of(e: FormError) -> u16 {
    match e {
        FormError::UnsupportedMediaType => 415,
        FormError::PayloadTooLarge => 413,
        _ => 400,
    }
}

/// The name of the form field that holds the subscriber's email.
pub open spec fn email_key() -> Seq<char> {
    "email"@
}

/// The name of the form field that holds the subscriber's name.
pub open spec fn name_key() -> Seq<char> {
    "name"@
}

/// What is wrong with a form's fields, if anything. Fields are read in order
/// and a repeated one is refused at once; after that a missing `email` is
/// reported before a missing `name`. Other fields are ignored.
pub open spec fn fields_error(pairs: Seq<FormPair>) -> Option<FormError> {
    if count_key(pairs, email_key()) > 1 || count_key(pairs, name_key()) > 1 {
        Some(FormError::DuplicateField)
    } else if count_key(pairs, email_key()) == 0 {
        Some(FormError::MissingEmail)
    } else if count_key(pairs, name_key()) == 0 {
        Some(FormError::MissingName)
    } else {
        None
    }
}

/// `r` is what the form made of `pairs` gives: its two fields, or the error.
pub open spec fn decoded_as(pairs: Seq<FormPair>, r: Result<Info, FormError>) -> bool {
    match r {
        Ok(info) => fields_error(pairs) is None && info.email@ == value_of(pairs, email_key())
            && info.name@ == value_of(pairs, name_key()),
        Err(e) => fields_error(pairs) == Some(e),
    }
}

/// Reads the `email` and `name` fields out of decoded form pairs.
pub fn info_from_pairs(pairs: &Vec<(String, String)>) -> (r: Result<Info, FormError>)
    ensures
        decoded_as(pairs.deep_view(), r),
{
    let ghost dv = pairs.deep_view();
    let email_key_s = <String as StringExecFns>::from_str("email");
    let name_key_s = <String as StringExecFns>::from_str("name");
    let mut n_email: usize = 0;
    let mut n_name: usize = 0;
    let mut i_email: usize = 0;
    let mut i_name: usize = 0;
    let mut i: usize = 0;
    while i < pairs.len()
        invariant
            dv == pairs.deep_view(),
            email_key_s@ == email_key(),
            name_key_s@ == name_key(),
            0 <= i <= pairs.len(),
            n_email == count_key(dv.take(i as int), email_key()),
            n_name == count_key(dv.take(i as int), name_key()),
            n_email > 0 ==> i_email < i && dv[i_email as int].1 == value_of(
                dv.take(i as int),
                email_key(),
            ),
            n_name > 0 ==> i_name < i && dv[i_name as int].1 == value_of(
                dv.take(i as int),
                name_key(),
            ),
            n_email <= i,
            n_name <= i,
        decreases pairs.len() - i,
    {
        let ghost before = dv.take(i as int);
        assert(dv.take(i + 1).drop_last() == before);
        assert(dv.take(i + 1).last() == dv[i as int]);
        if pairs[i].0 == email_key_s {
            n_email = n_email + 1;
            i_email = i;
        }
        if pairs[i].0 == name_key_s {
            n_name = n_name + 1;
            i_name = i;
        }
        i = i + 1;
    }
    assert(dv.take(pairs.len() as int) == dv);
    if n_email > 1 || n_name > 1 {
        Err(FormError::DuplicateField)
    } else if n_email == 0 {
        Err(FormError::MissingEmail)
    } else if n_name == 0 {
        Err(FormError::MissingName)
    } else {
        let email = pairs[i_email].1.clone();
        let name = pairs[i_name].1.clone();
        Ok(Info { email, name })
    }
}

/// Why a request with this media type and body is turned away, if it is:
/// the media type is checked first, then the body's length, then its fields.
pub open spec fn request_error(content_type: Seq<char>, body: Seq<u8>) -> Option<FormError> {
    if lower_of(content_type) != form_media_type() {
        Some(FormError::UnsupportedMediaType)
    } else if body.len() > FORM_LIMIT {
        Some(FormError::PayloadTooLarge)
    } else {
        fields_error(form_pairs_of(body))
    }
}

/// `r` is what a request with this media type and body gives.
pub open spec fn request_decoded_as(
    content_type: Seq<char>,
    body: Seq<u8>,
    r: Result<Info, FormError>,
) -> bool {
    match r {
        Ok(info) => request_error(content_type, body) is None && info.email@ == value_of(
            form_pairs_of(body),
            email_key(),
        ) && info.name@ == value_of(form_pairs_of(body), name_key()),
        Err(e) => request_error(content_type, body) == Some(e),
    }
}

/// Reads a subscription form from a request's media type and body.
pub fn read_form(content_type: &str, body: &[u8]) -> (r: Result<Info, FormError>)
    ensures
        request_decoded_as(content_type@, body@, r),
{
    if !accepts_media_type(content_type) {
        return Err(FormError::UnsupportedMediaType);
    }
    if body.len() > FORM_LIMIT {
        return Err(FormError::PayloadTooLarge);
    }
    let pairs = decode_pairs(body);
    info_from_pairs(&pairs)
}

/// Whether a 128-bit identifier is a random (version 4, RFC 4122 variant) UUID.
pub open spec fn is_random_uuid(id: u128) -> bool {
    (id >> 76u128) & 0xfu128 == 4 && (id >> 62u128) & 3u128 == 2
}

/// Relies on uuid::Uuid::new_v4 and Uuid::as_u128: random bits, with the
/// version field set to 4 and the variant bits to `10`.
#[verifier::external_body]
fn random_id() -> (r: u128)
    ensures
        is_random_uuid(r),
{
    uuid::Uuid::new_v4().as_u128()
}

/// Relies on chrono::Utc::now and DateTime::timestamp_micros: the time of the
/// call, in microseconds since the Unix epoch.
#[verifier::external_body]
fn now_micros() -> (r: i64) {
    chrono::Utc::now().timestamp_micros()
}

/// A row of the subscriptions table, ready to be inserted.
pub struct NewSubscriber {
    pub id: u128,
    pub email: String,
    pub name: String,
    /// Microseconds since the Unix epoch.
    pub subscribed_at: i64,
}

/// Gives a subscription form a fresh identifier and the current time.
pub fn new_subscriber(info: Info) -> (r: NewSubscriber)
    ensures
        r.email@ == info.email@,
        r.name@ == info.name@,
        is_random_uuid(r.id),
{
    let id = random_id();
    let subscribed_at = now_micros();
    NewSubscriber { id, email: info.email, name: info.name, subscribed_at }
}

/// What the subscription handler does next with a request.
pub enum Step {
    /// Answer at once with this status; nothing is stored.
    Respond(u16),
    /// Insert this row, then answer as `status_after_insert` says.
    Insert(NewSubscriber),
}

/// `step` is what a request with this media type and body leads to.
pub open spec fn subscribe_outcome(content_type: Seq<char>, body: Seq<u8>, step: Step) -> bool {
    match step {
        Step::Respond(s) => match request_error(content_type, body) {
            Some(e) => s == status_of(e),
            None => false,
        },
        Step::Insert(row) => request_error(content_type, body) is None && row.email@ == value_of(
            form_pairs_of(body),
            email_key(),
        ) && row.name@ == value_of(form_pairs_of(body), name_key()) && is_random_uuid(row.id),
    }
}

/// Decides what a subscription request leads to: a refusal, or one row to
/// insert that holds the form's name and email.
pub fn subscribe(content_type: &str, body: &[u8]) -> (r: Step)
    ensures
        subscribe_outcome(content_type@, body@, r),
{
    match read_form(content_type, body) {
        Ok(info) => Step::Insert(new_subscriber(info)),
        Err(e) => Step::Respond(e.status()),
    }
}

/// The HTTP status once the insert of a new row has been tried.
pub open spec fn insert_status_of(inserted: bool) -> u16 {
    if inserted { 200 } else { 500 }
}

/// The status of the answer once the insert has been tried: 200 where the row
/// was stored, 500 where the database failed.
pub fn status_after_insert(inserted: bool) -> (r: u16)
    ensures
        r == insert_status_of(inserted),
{
    if inserted { 200 } else { 500 }
}

/// A request that carries a form body within the limit, with one `email` and
/// one `name` field, leads to exactly one row to insert, holding the decoded
/// email and name; once that row is stored the answer is 200.
pub proof fn lemma_valid_form_inserts(content_type: Seq<char>, body: Seq<u8>, step: Step)
    requires
        lower_of(content_type) == form_media_type(),
        body.len() <= FORM_LIMIT,
        count_key(form_pairs_of(body), email_key()) == 1,
        count_key(form_pairs_of(body), name_key()) == 1,
        subscribe_outcome(content_type, body, step),
    ensures
        step matches Step::Insert(row) && row.email@ == value_of(form_pairs_of(body), email_key())
            && row.name@ == value_of(form_pairs_of(body), name_key()),
        insert_status_of(true) == 200,
{
}

/// A form body without an `email` field, without a `name` field, or without
/// both, is answered with 400 and nothing is stored.
pub proof fn lemma_missing_field_rejected(content_type: Seq<char>, body: Seq<u8>, step: Step)
    requires
        lower_of(content_type) == form_media_type(),
        body.len() <= FORM_LIMIT,
        count_key(form_pairs_of(body), email_key()) == 0 || count_key(
            form_pairs_of(body),
            name_key(),
        ) == 0,
        subscribe_outcome(content_type, body, step),
    ensures
        step == Step::Respond(400),
{
}

/// The handler keeps no memory of earlier requests: a valid request that
/// repeats an earlier one is again turned into a row to insert, with the same
/// email and name, and each of the two rows gets an identifier of its own
/// drawing.
pub proof fn lemma_no_deduplication(
    content_type: Seq<char>,
    body: Seq<u8>,
    first: Step,
    second: Step,
)
    requires
        request_error(content_type, body) is None,
        subscribe_outcome(content_type, body, first),
        subscribe_outcome(content_type, body, second),
    ensures
        first matches Step::Insert(a) && second matches Step::Insert(b) && a.email@ == b.email@
            && a.name@ == b.name@,
{
}

} // verus!
