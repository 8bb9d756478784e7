use vstd::prelude::*;

verus! {

/// A lower-case hexadecimal digit.
pub open spec fn is_lower_hex(c: char) -> bool {
    (48 <= (c as u32) <= 57) || (97 <= (c as u32) <= 102)
}

/// The shape of a UUID in its hyphenated text form: 36 characters, hyphens
/// at positions 8, 13, 18 and 23, lower-case hexadecimal digits elsewhere.
pub open spec fn uuid_text_shape(s: Seq<char>) -> bool {
    &&& s.len() == 36
    &&& forall|i: int|
        0 <= i < 36 ==> if i == 8 || i == 13 || i == 18 || i == 23 {
            #[trigger] s[i] == '-'
        } else {
            is_lower_hex(s[i])
        }
}

/// Calls `uuid::Uuid::new_v4().to_string()`: a random UUID, written in the
/// hyphenated lower-case form that the crate documents for `Display`. Which
/// UUID comes back is left open.
#[verifier::external_body]
pub(crate) fn new_uuid_text() -> (r: String)
    ensures
        uuid_text_shape(r@),
{
    uuid::Uuid::new_v4().to_string()
}

/// The characters `s[0..n]` are ASCII.
pub open spec fn ascii_prefix(s: Seq<char>, n: int) -> bool {
    n <= s.len() && forall|i: int| 0 <= i < n ==> (#[trigger] s[i] as u32) < 128
}

pub proof fn lemma_uuid_ascii(s: Seq<char>, n: int)
    requires
        uuid_text_shape(s),
        0 <= n <= 36,
    ensures
        ascii_prefix(s, n),
{
    assert forall|i: int| 0 <= i < n implies (#[trigger] s[i] as u32) < 128 by {
        if i == 8 || i == 13 || i == 18 || i == 23 {
        } else {
            assert(is_lower_hex(s[i]));
        }
    }
}

} // verus!
