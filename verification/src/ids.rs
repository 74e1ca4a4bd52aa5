use vstd::prelude::*;

verus! {

/// Identifier of an agent: the 128-bit value of a UUID.
pub type AgentId = u128;

/// Identifier of a task: the 128-bit value of a UUID.
pub type TaskId = u128;

/// The lower-case hexadecimal digit of `n` (below 16).
pub open spec fn hex_digit(n: u128) -> char {
    if n < 10 {
        (n + 48) as char
    } else {
        (n + 87) as char
    }
}

/// The `k`-th hexadecimal digit of `id`, the most significant first.
pub open spec fn nibble(id: u128, k: int) -> u128 {
    (id >> ((4 * (31 - k)) as u128)) & 0xf
}

/// Which of the 32 digits stands at position `i` of the hyphenated text.
pub open spec fn digit_index(i: int) -> int {
    if i < 8 {
        i
    } else if i < 13 {
        i - 1
    } else if i < 18 {
        i - 2
    } else if i < 23 {
        i - 3
    } else {
        i - 4
    }
}

/// The hyphenated lower-case text of the UUID whose 128-bit value is `id`: its
/// 32 hexadecimal digits, most significant first, with a hyphen after the 8th,
/// 12th, 16th and 20th.
pub open spec fn uuid_text(id: u128) -> Seq<char> {
    Seq::new(
        36,
        |i: int|
            if i == 8 || i == 13 || i == 18 || i == 23 {
                '-'
            } else {
                hex_digit(nibble(id, digit_index(i)))
            },
    )
}

/// A freshly generated random identifier is a version-4, RFC 4122 variant UUID:
/// its version nibble is 4 and its two variant bits are `10`.
pub open spec fn is_v4_id(id: u128) -> bool {
    &&& (id >> 76u128) & 0xfu128 == 4u128
    &&& (id >> 62u128) & 0x3u128 == 2u128
}

/// A version-4 identifier is never the nil identifier.
pub proof fn lemma_v4_id_not_nil(id: u128)
    requires
        is_v4_id(id),
    ensures
        id != 0,
{
    assert(((id >> 76u128) & 0xfu128 == 4u128) ==> id != 0) by (bit_vector);
}

/// Calls `uuid::Uuid::new_v4` and returns its 128-bit value. The value is random;
/// the uuid source masks the random bits so that the version nibble is 4 and the
/// variant bits are `10`, which is all that is claimed.
#[verifier::external_body]
pub(crate) fn new_id() -> (id: u128)
    ensures
        is_v4_id(id),
{
    uuid::Uuid::new_v4().as_u128()
}

/// Formats `id` with `uuid::Uuid`'s `Display`, which writes the hyphenated
/// lower-case hexadecimal form, `uuid_text`.
#[verifier::external_body]
pub(crate) fn id_text(id: u128) -> (s: String)
    ensures
        s@ == uuid_text(id),
{
    uuid::Uuid::from_u128(id).to_string()
}

} // verus!
