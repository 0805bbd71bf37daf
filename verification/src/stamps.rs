//! The ids that are made up here, and the times that go with them.
use vstd::prelude::*;

verus! {

/// Whether a character is a lower-case hexadecimal digit.
pub open spec fn is_hex_digit(c: char) -> bool {
    '0' <= c <= '9' || 'a' <= c <= 'f'
}

/// Whether a text is a random UUID: 32 lower-case hexadecimal digits in groups of 8, 4, 4, 4
/// and 12, with the version and the variant of a random UUID.
pub open spec fn is_fresh_id(id: Seq<char>) -> bool {
    &&& id.len() == 36
    &&& forall|i: int|
        0 <= i < 36 ==> if i == 8 || i == 13 || i == 18 || i == 23 {
            #[trigger] id[i] == '-'
        } else {
            is_hex_digit(id[i])
        }
    &&& id[14] == '4'
    &&& id[19] == '8' || id[19] == '9' || id[19] == 'a' || id[19] == 'b'
}

/// Calls `uuid::Uuid::new_v4` and shows the result in its hyphenated form. Which UUID comes
/// is left to chance; of its text, what every random UUID has in common is stated: the
/// hyphens, the lower-case digits, the version 4 and the variant. That two calls give
/// different texts is likely, not certain, and not stated.
#[verifier::external_body]
fn random_uuid() -> (id: String)
    ensures
        is_fresh_id(id@),
{
    uuid::Uuid::new_v4().to_string()
}

/// Calls `time::OffsetDateTime::now_utc` for the seconds since the Unix epoch. They depend on
/// the clock, so nothing is stated of them.
#[verifier::external_body]
fn now_seconds() -> i64 {
    time::OffsetDateTime::now_utc().unix_timestamp()
}

/// An id for something new: a message, a turn, a frame of the redo stack.
pub fn fresh_id() -> (id: String)
    ensures
        is_fresh_id(id@),
{
    random_uuid()
}

/// The id and the time of a message that is about to be stored.
#[derive(Debug)]
pub struct MessageStamp {
    pub message_id: String,
    /// In seconds since the Unix epoch.
    pub created_at: i64,
}

impl MessageStamp {
    /// A new id, and the time now.
    pub fn fresh() -> (stamp: MessageStamp)
        ensures
            is_fresh_id(stamp.message_id@),
    {
        MessageStamp { message_id: fresh_id(), created_at: now_seconds() }
    }
}

/// A new id is written as a random UUID is: five groups of lower-case hexadecimal digits
/// with hyphens between them, the version and the variant among them.
pub proof fn law_ids_are_written_as_random_uuids(id: Seq<char>, i: int)
    requires
        is_fresh_id(id),
        0 <= i < id.len(),
    ensures
        id.len() == 8 + 1 + 4 + 1 + 4 + 1 + 4 + 1 + 12,
        i == 8 || i == 13 || i == 18 || i == 23 <==> id[i] == '-',
        i != 8 && i != 13 && i != 18 && i != 23 ==> ('0' <= id[i] && id[i] <= '9') || ('a' <= id[i]
            && id[i] <= 'f'),
        id[14] == '4',
        id[19] == '8' || id[19] == '9' || id[19] == 'a' || id[19] == 'b',
{
    assert(id[i] == '-' || is_hex_digit(id[i]));
}

/// The hexadecimal digits are the ten digits and the first six letters.
pub proof fn law_sixteen_characters_are_hexadecimal_digits(c: char)
    ensures
        is_hex_digit(c) <==> (c as int - '0' as int >= 0 && c as int - '0' as int <= 9) || (
        c as int - 'a' as int >= 0 && c as int - 'a' as int <= 5),
{
}

} // verus!
