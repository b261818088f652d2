use vstd::prelude::*;

verus! {

/// What `uuid::Uuid::parse_str` makes of a piece of text: the 128-bit value
/// of the identifier it denotes, or nothing when the text is not a UUID in
/// any of the textual forms that crate accepts. The outcome depends on the
/// text alone.
pub uninterp spec fn parsed_uuid(s: Seq<char>) -> Option<u128>;

/// The canonical text of a 128-bit identifier: the hyphenated, lower-case
/// form that `uuid::Uuid`'s `Display` writes. It depends on the identifier
/// alone.
pub uninterp spec fn uuid_text(id: u128) -> Seq<char>;

/// Relies on `uuid::Uuid::now_v7` and `Uuid::as_u128`: the result is a
/// version-7 UUID, so the four version bits (bits 76..80 of the big-endian
/// 128-bit value) hold 7, and the value is never the nil UUID.
#[verifier::external_body]
pub fn fresh_user_id() -> (r: u128)
    ensures
        (r >> 76) & 0xf == 7,
        r != 0,
{
    uuid::Uuid::now_v7().as_u128()
}

/// Relies on `uuid::Uuid::parse_str` and `Uuid::as_u128`: parsing accepts
/// exactly the textual UUID forms of that crate and returns the value the
/// text denotes.
#[verifier::external_body]
pub fn parse_user_id(s: &str) -> (r: Option<u128>)
    ensures
        r == parsed_uuid(s@),
{
    match uuid::Uuid::parse_str(s) {
        Ok(u) => Some(u.as_u128()),
        Err(_) => None,
    }
}

/// Relies on `uuid::Uuid::from_u128` and the `Display` form of `uuid::Uuid`:
/// the text is the canonical hyphenated form, 36 characters long, and
/// `parse_str` accepts that form and reads the same value back.
#[verifier::external_body]
pub fn format_user_id(id: u128) -> (r: String)
    ensures
        r@ == uuid_text(id),
        r@.len() == 36,
        parsed_uuid(r@) == Some(id),
{
    uuid::Uuid::from_u128(id).to_string()
}

} // verus!
