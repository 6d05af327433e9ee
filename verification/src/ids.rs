use vstd::prelude::*;

verus! {

/// A lower-case hexadecimal digit.
pub open spec fn is_lower_hex_digit(c: char) -> bool {
    ('0' <= c && c <= '9') || ('a' <= c && c <= 'f')
}

/// The hyphenated text form of a random (version 4) UUID: 36 characters,
/// hyphens at positions 8, 13, 18 and 23, lower-case hex digits elsewhere,
/// the version digit `4` at position 14 and one of `8`, `9`, `a`, `b` (the
/// variant) at position 19.
pub open spec fn is_hyphenated_uuid(s: Seq<char>) -> bool {
    &&& s.len() == 36
    &&& s[14] == '4'
    &&& (s[19] == '8' || s[19] == '9' || s[19] == 'a' || s[19] == 'b')
    &&& forall|i: int|
        0 <= i < 36 ==> if i == 8 || i == 13 || i == 18 || i == 23 {
            #[trigger] s[i] == '-'
        } else {
            is_lower_hex_digit(s[i])
        }
}

/// A fresh tab id: `uuid::Uuid::new_v4()` rendered with `to_string`.
/// The value is random; what is claimed is only its shape: the crate's
/// `Display` impl writes the lower-case hyphenated encoding, and `new_v4`
/// sets the version nibble to 4 and the variant bits to `10`.
#[verifier::external_body]
pub(crate) fn next_tab_id() -> (id: String)
    ensures
        is_hyphenated_uuid(id@),
{
    uuid::Uuid::new_v4().to_string()
}

} // verus!
