use vstd::prelude::*;

verus! {

pub open spec fn lower_hex_digit(c: char) -> bool {
    ('0' <= c <= '9') || ('a' <= c <= 'f')
}

pub open spec fn uuid_hyphen_at(i: int) -> bool {
    i == 8 || i == 13 || i == 18 || i == 23
}

/// The hyphenated text form of a uuid: 36 characters, hyphens at 8, 13, 18
/// and 23, lowercase hex digits elsewhere.
pub open spec fn uuid_text(s: Seq<char>) -> bool {
    &&& s.len() == 36
    &&& forall|i: int|
        0 <= i < 36 ==> if uuid_hyphen_at(i) {
            s[i] == '-'
        } else {
            lower_hex_digit(#[trigger] s[i])
        }
}

/// Relies on `uuid::Uuid::new_v4`, a random version-4 uuid, and on the
/// `Display` impl of `uuid::Uuid`, which writes it hyphenated in lowercase.
#[verifier::external_body]
fn random_uuid_text() -> (r: String)
    ensures
        uuid_text(r@),
{
    uuid::Uuid::new_v4().to_string()
}

/// A fresh random identifier in the hyphenated uuid form.
pub fn uuid_v4() -> (r: String)
    ensures
        uuid_text(r@),
{
    random_uuid_text()
}

} // verus!
