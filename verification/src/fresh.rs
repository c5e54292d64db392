//! Values that come from outside the program's own state: random bytes for a
//! new id, and the current time.

use vstd::prelude::*;

verus! {

/// A lower-case hexadecimal digit.
pub open spec fn is_lower_hex_digit(c: char) -> bool {
    ('0' <= c && c <= '9') || ('a' <= c && c <= 'f')
}

/// The positions of the hyphens in the text form of a UUID.
pub open spec fn is_hyphen_position(i: int) -> bool {
    i == 8 || i == 13 || i == 18 || i == 23
}

/// The hyphenated, lower-case text of a random (version 4, RFC 4122 variant)
/// UUID, such as `67e55044-10b1-426f-9247-bb680e5fe0c8`.
pub open spec fn is_uuid_v4_text(s: Seq<char>) -> bool {
    &&& s.len() == 36
    &&& forall|i: int|
        0 <= i < 36 ==> if is_hyphen_position(i) {
            s[i] == '-'
        } else {
            is_lower_hex_digit(#[trigger] s[i])
        }
    &&& s[14] == '4'
    &&& (s[19] == '8' || s[19] == '9' || s[19] == 'a' || s[19] == 'b')
}

/// The lower-case hexadecimal digit of `n` (for `0 <= n < 16`).
pub open spec fn hex_char(n: int) -> char {
    if n < 10 {
        (48 + n) as char
    } else {
        (87 + n) as char
    }
}

/// Byte `j` of the UUID made from the random bytes `b`: byte 6 carries the
/// version 4 in its high half, byte 8 the variant bits `10` in its top bits,
/// the others are the random bytes as they are.
pub open spec fn v4_byte(b: Seq<u8>, j: int) -> int {
    if j == 6 {
        b[6] % 16 + 64
    } else if j == 8 {
        b[8] % 64 + 128
    } else {
        b[j] as int
    }
}

/// Hexadecimal digit `k` (of 32, most significant first) of the UUID made
/// from the random bytes `b`.
pub open spec fn v4_digit(b: Seq<u8>, k: int) -> int {
    if k % 2 == 0 {
        v4_byte(b, k / 2) / 16
    } else {
        v4_byte(b, k / 2) % 16
    }
}

/// Which of the 32 digits stands at position `i` of the hyphenated text.
pub open spec fn digit_at(i: int) -> int {
    if i < 8 {
        i
    } else if i < 13 {
        i - 1
    } else if i < 18 {
        i - 2
    } else if i < 23 {
        i - 3
    } else {
        i - 4
    }
}

/// The hyphenated, lower-case text of the version 4 UUID made from the 16
/// random bytes `b`.
pub open spec fn uuid_v4_text(b: Seq<u8>) -> Seq<char> {
    Seq::new(
        36,
        |i: int|
            if is_hyphen_position(i) {
                '-'
            } else {
                hex_char(v4_digit(b, digit_at(i)))
            },
    )
}

/// The text made from any 16 random bytes has the shape of a version 4 UUID.
pub proof fn lemma_uuid_v4_text_shape(b: Seq<u8>)
    requires
        b.len() == 16,
    ensures
        is_uuid_v4_text(uuid_v4_text(b)),
{
    let s = uuid_v4_text(b);
    assert forall|i: int| 0 <= i < 36 && !is_hyphen_position(i) implies is_lower_hex_digit(
        #[trigger] s[i],
    ) by {
        let k = digit_at(i);
        assert(0 <= k < 32);
        assert(0 <= v4_byte(b, k / 2) < 256);
        let n = v4_digit(b, k);
        assert(0 <= n < 16);
    }
    assert(v4_digit(b, 12) == 4);
    assert(8 <= v4_digit(b, 16) < 12);
}

/// Sixteen random bytes from `getrandom::fill`, or `None` where the operating
/// system gives none.
///
/// The bytes are random, so nothing is claimed of them.
#[verifier::external_body]
pub(crate) fn random_uuid_bytes() -> Option<[u8; 16]> {
    let mut bytes = [0u8; 16];
    match getrandom::fill(&mut bytes) {
        Ok(()) => Some(bytes),
        Err(_) => None,
    }
}

/// The text of the UUID that `uuid::Builder::from_random_bytes` makes from
/// `bytes` (it sets the version to 4 and the variant to RFC 4122), written
/// by uuid's `Display`, which gives the hyphenated lower-case form.
#[verifier::external_body]
pub(crate) fn uuid_v4_text_from(bytes: [u8; 16]) -> (text: String)
    ensures
        text@ == uuid_v4_text(bytes@),
{
    uuid::Builder::from_random_bytes(bytes).into_uuid().to_string()
}

/// The current time in milliseconds since the Unix epoch (negative before
/// 1970), from chrono's `From<SystemTime> for DateTime<Utc>` applied to
/// `SystemTime::now()`, then `timestamp_millis`.
///
/// It depends on the clock, so nothing is claimed of it. Unlike `Utc::now`,
/// this conversion accepts a clock before 1970; it panics only for a clock
/// outside the years that chrono represents (about 262,000 years either side
/// of 1970).
#[verifier::external_body]
pub(crate) fn current_time_millis() -> i64 {
    chrono::DateTime::<chrono::Utc>::from(std::time::SystemTime::now()).timestamp_millis()
}

} // verus!
