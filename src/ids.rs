use vstd::prelude::*;

verus! {

/// The value that bson's `Uuid::parse_str` yields for a text, as the
/// 128-bit big-endian number of its bytes; `None` where the text is no UUID.
pub uninterp spec fn parsed_uuid(s: Seq<char>) -> Option<u128>;

/// The text that bson's `Uuid` displays for an identifier.
pub uninterp spec fn uuid_text(id: u128) -> Seq<char>;

/// Relies on bson's `Uuid::new`: a random version-4 identifier. Nothing is
/// known of the value.
#[verifier::external_body]
pub(crate) fn fresh_id() -> (r: u128) {
    u128::from_be_bytes(mongodb::bson::Uuid::new().bytes())
}

/// Relies on bson's `Uuid::parse_str`: the result depends on the text alone.
#[verifier::external_body]
pub(crate) fn parse_uuid(s: &str) -> (r: Option<u128>)
    ensures
        r == parsed_uuid(s@),
{
    match mongodb::bson::Uuid::parse_str(s) {
        Ok(u) => Some(u128::from_be_bytes(u.bytes())),
        Err(_) => None,
    }
}

/// Relies on the `Display` of bson's `Uuid`: the text depends on the
/// identifier alone, and is the hyphenated form that `Uuid::parse_str` reads
/// back to the same identifier.
#[verifier::external_body]
pub(crate) fn uuid_to_text(id: u128) -> (r: String)
    ensures
        r@ == uuid_text(id),
        parsed_uuid(r@) == Some(id),
{
    mongodb::bson::Uuid::from_bytes(id.to_be_bytes()).to_string()
}

/// Relies on bson's `DateTime::now` and its `Display`: the current time as
/// text. Nothing is known of the value.
#[verifier::external_body]
pub(crate) fn now_text() -> (r: String) {
    mongodb::bson::DateTime::now().to_string()
}

} // verus!
