use vstd::prelude::*;

verus! {

/// `serde_json::Value`, a JSON document. Nothing inside it is visible here:
/// what the library reads of one, it reads through the functions below.
#[verifier::external_type_specification]
#[verifier::external_body]
pub struct ExValue(serde_json::Value);

/// `serde_json::Error`, the parser's error.
#[verifier::external_type_specification]
#[verifier::external_body]
pub struct ExJsonError(serde_json::Error);

/// The members of a JSON object: each key with the value under it.
pub type Members = Seq<(Seq<char>, serde_json::Value)>;

/// What parsing a text as JSON gives: the document, or the parser's complaint.
pub uninterp spec fn json_parse(text: Seq<char>) -> Result<serde_json::Value, Seq<char>>;

/// The text that a parser error displays as.
pub uninterp spec fn json_error_text(error: serde_json::Error) -> Seq<char>;

/// The members of a JSON object, in the order in which the object is walked;
/// `None` for a value that is no object.
pub uninterp spec fn json_members(value: serde_json::Value) -> Option<Members>;

/// Whether no two members share a key.
pub open spec fn distinct_keys(members: Members) -> bool {
    forall|i: int, j: int|
        0 <= i < j < members.len() ==> (#[trigger] members[i]).0 != (#[trigger] members[j]).0
}

/// The members that a vector of borrowed pairs stands for.
pub open spec fn members_view(pairs: Seq<(&String, &serde_json::Value)>) -> Members {
    Seq::new(pairs.len(), |i: int| (pairs[i].0@, *pairs[i].1))
}

/// Parses a text with `serde_json::from_str`, asking for a `Value`. The
/// outcome depends on the text alone; a failure carries the error whose
/// display text is the complaint.
#[verifier::external_body]
pub(crate) fn parse_document(text: &str) -> (r: Result<serde_json::Value, serde_json::Error>)
    ensures
        match r {
            Ok(value) => json_parse(text@) == Ok::<serde_json::Value, Seq<char>>(value),
            Err(error) => json_parse(text@) == Err::<serde_json::Value, Seq<char>>(
                json_error_text(error),
            ),
        },
{
    serde_json::from_str::<serde_json::Value>(text)
}

/// Renders a parser error with the `Display` impl of `serde_json::Error`.
#[verifier::external_body]
pub(crate) fn describe_json_error(error: &serde_json::Error) -> (r: String)
    ensures
        r@ == json_error_text(*error),
{
    format!("{}", error)
}

/// Hands out the members of an object through `Value::as_object` and
/// `Map::iter`, as borrowed pairs. The map behind an object holds each key
/// once, so the keys differ pairwise.
#[verifier::external_body]
pub(crate) fn object_members<'a>(value: &'a serde_json::Value) -> (r: Option<
    Vec<(&'a String, &'a serde_json::Value)>,
>)
    ensures
        match r {
            Some(pairs) => json_members(*value) == Some(members_view(pairs@)) && distinct_keys(
                members_view(pairs@),
            ),
            None => json_members(*value).is_none(),
        },
{
    value.as_object().map(|object| object.iter().collect())
}

/// Copies a JSON value with the `Clone` impl of `serde_json::Value`.
#[verifier::external_body]
pub(crate) fn copy_value(value: &serde_json::Value) -> (r: serde_json::Value)
    ensures
        r == *value,
{
    value.clone()
}

} // verus!
