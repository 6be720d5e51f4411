//! Calls into std and outside crates whose contracts Verus takes on trust.
use vstd::prelude::*;

use base64::Engine;
use sha2::Digest;

use crate::text::{ascii_lower_text, is_ascii_text};

verus! {

/// `String: FromIterator<char>` collects the characters in order.
#[verifier::external_body]
pub(crate) fn string_from_chars(v: &Vec<char>) -> (s: String)
    ensures
        s@ == v@,
{
    v.iter().collect()
}

/// What `str::to_lowercase` returns for a text (Unicode lower-case mapping).
pub uninterp spec fn lower(s: Seq<char>) -> Seq<char>;

/// The lower-case form of a text: on ASCII text, each capital letter `A`-`Z` becomes
/// `a`-`z` and every other character is kept; on other text, what `lower` names.
#[verifier::opaque]
pub open spec fn lowercase(s: Seq<char>) -> Seq<char> {
    if is_ascii_text(s) {
        ascii_lower_text(s)
    } else {
        lower(s)
    }
}

/// `str::to_lowercase`: on ASCII text the Unicode lower-case mapping turns `A`-`Z` into
/// `a`-`z` and keeps every other character; on other text the contract only names the
/// result (`lower`).
#[verifier::external_body]
pub(crate) fn to_lowercase(s: &str) -> (r: String)
    ensures
        is_ascii_text(s@) ==> r@ == ascii_lower_text(s@),
        !is_ascii_text(s@) ==> r@ == lower(s@),
        r@ == lowercase(s@),
{
    s.to_lowercase()
}

/// What `char::to_lowercase` yields for one character (Unicode lower-case mapping, one
/// or more characters).
pub uninterp spec fn char_lower(c: char) -> Seq<char>;

/// `char::to_lowercase`, collected: the contract names the characters it yields and
/// claims nothing else of them.
#[verifier::external_body]
pub(crate) fn char_to_lowercase(c: char) -> (r: Vec<char>)
    ensures
        r@ == char_lower(c),
{
    c.to_lowercase().collect()
}

/// The `k` lowest hexadecimal digits of `n`, most significant first, in lower case.
pub open spec fn hex_digits(n: nat, k: nat) -> Seq<char>
    decreases k,
{
    if k == 0 {
        seq![]
    } else {
        hex_digits(n / 16, (k - 1) as nat).push(crate::text::hex_digit(n % 16))
    }
}

/// The hyphenated lower-case text of a UUID given by its 128-bit value: 32 hexadecimal
/// digits, most significant first, in groups of 8, 4, 4, 4 and 12 joined by `-`.
pub open spec fn uuid_text(id: u128) -> Seq<char> {
    let d = hex_digits(id as nat, 32);
    d.subrange(0, 8) + "-"@ + d.subrange(8, 12) + "-"@ + d.subrange(12, 16) + "-"@ + d.subrange(
        16,
        20,
    ) + "-"@ + d.subrange(20, 32)
}

/// `uuid::Uuid::from_u128(id).to_string()`. The crate formats a UUID through its
/// hyphenated lower-case form, and `from_u128` takes the value's bytes most significant
/// first; the contract states that text.
#[verifier::external_body]
pub(crate) fn uuid_string(id: u128) -> (r: String)
    ensures
        r@ == uuid_text(id),
{
    uuid::Uuid::from_u128(id).to_string()
}

/// `time::OffsetDateTime::now_utc().unix_timestamp_nanos()`: the current time in Unix
/// nanoseconds. It depends on the clock, so nothing is claimed of it.
#[verifier::external_body]
pub(crate) fn now_unix_nanos() -> (r: i128) {
    time::OffsetDateTime::now_utc().unix_timestamp_nanos()
}

/// What `base64`'s standard engine decodes from a text: the bytes, or `None` where the
/// text is not valid padded standard base64.
pub uninterp spec fn base64_decoded(input: Seq<char>) -> Option<Seq<u8>>;

/// `base64::engine::general_purpose::STANDARD.decode`: the contract names the decoded
/// bytes (any decoding error becomes `None`) and claims nothing else of them.
#[verifier::external_body]
pub(crate) fn base64_decode(input: &str) -> (r: Option<Vec<u8>>)
    ensures
        match r {
            Some(v) => base64_decoded(input@) == Some(v@),
            None => base64_decoded(input@) is None,
        },
{
    base64::engine::general_purpose::STANDARD.decode(input).ok()
}

/// The SHA-256 digest of some bytes.
pub uninterp spec fn sha256_of(bytes: Seq<u8>) -> Seq<u8>;

/// `sha2::Sha256::digest`: the contract names the digest and states its documented
/// length of 32 bytes.
#[verifier::external_body]
pub(crate) fn sha256_digest(bytes: &[u8]) -> (r: Vec<u8>)
    ensures
        r@ == sha256_of(bytes@),
        r@.len() == 32,
{
    sha2::Sha256::digest(bytes).to_vec()
}

/// The UTC calendar fields (year, month, day, hour, minute) of a Unix time in
/// nanoseconds, or `None` where `time` cannot represent it.
pub uninterp spec fn utc_fields_of(nanos: i128) -> Option<(i32, u8, u8, u8, u8)>;

/// `time::OffsetDateTime::from_unix_timestamp_nanos` read back through its `year`,
/// `month`, `day`, `hour` and `minute` accessors: the contract names the fields and claims
/// nothing else of them.
#[verifier::external_body]
pub(crate) fn utc_fields(nanos: i128) -> (r: Option<(i32, u8, u8, u8, u8)>)
    ensures
        r == utc_fields_of(nanos),
{
    match time::OffsetDateTime::from_unix_timestamp_nanos(nanos) {
        Ok(d) => Some((d.year(), u8::from(d.month()), d.day(), d.hour(), d.minute())),
        Err(_) => None,
    }
}

/// What `uuid::Uuid::parse_str` gives for a text: the UUID's 128-bit value, or the text
/// of its parse error.
pub uninterp spec fn uuid_parse(s: Seq<char>) -> Result<u128, Seq<char>>;

/// `uuid::Uuid::parse_str`, with the UUID taken as its 128-bit value and the error as its
/// text: the contract names the outcome and claims nothing else of it.
#[verifier::external_body]
pub(crate) fn parse_uuid(s: &str) -> (r: Result<u128, String>)
    ensures
        match r {
            Ok(v) => uuid_parse(s@) == Ok::<u128, Seq<char>>(v),
            Err(e) => uuid_parse(s@) == Err::<u128, Seq<char>>(e@),
        },
{
    match uuid::Uuid::parse_str(s) {
        Ok(u) => Ok(u.as_u128()),
        Err(e) => Err(e.to_string()),
    }
}

/// Whether a character is an ASCII letter, an ASCII digit or `_`.
pub open spec fn is_word_ascii(c: char) -> bool {
    ('0' <= c && c <= '9') || ('a' <= c && c <= 'z') || ('A' <= c && c <= 'Z') || c == '_'
}

/// Whether a regular expression matches a text, or `None` where the pattern does not
/// compile.
pub uninterp spec fn regex_match_of(pattern: Seq<char>, text: Seq<char>) -> Option<bool>;

/// `regex::Regex::new` on a pattern, then `Regex::is_match` on a text: the contract names
/// the outcome, and states it for the user-name pattern `^[0-9A-Za-z_]+$`. That pattern
/// compiles, and it is anchored at both ends (without multi-line mode `$` matches only at
/// the end of the text), so it matches exactly the non-empty texts made of ASCII letters,
/// digits and `_`.
#[verifier::external_body]
pub(crate) fn regex_is_match(pattern: &str, text: &str) -> (r: Option<bool>)
    ensures
        r == regex_match_of(pattern@, text@),
        pattern@ == "^[0-9A-Za-z_]+$"@ ==> r == Some(text@.len() > 0 && forall|i: int|
            0 <= i < text@.len() ==> is_word_ascii(#[trigger] text@[i])),
{
    match regex::Regex::new(pattern) {
        Ok(re) => Some(re.is_match(text)),
        Err(_) => None,
    }
}

/// What `time` reads from a text with a format description (version 1 syntax): the Unix
/// time in nanoseconds of the date and time read, taken as UTC, or the text of the error
/// (of the description or of the input).
pub uninterp spec fn plain_datetime_parse(value: Seq<char>, format: Seq<char>) -> Result<i128, Seq<char>>;

/// `time::format_description::parse_borrowed::<1>` on the format, then
/// `time::PrimitiveDateTime::parse` on the text, `assume_utc` and `unix_timestamp_nanos`:
/// the contract names the outcome and claims nothing else of it.
#[verifier::external_body]
pub(crate) fn parse_plain_datetime(value: &str, format: &str) -> (r: Result<i128, String>)
    ensures
        match r {
            Ok(n) => plain_datetime_parse(value@, format@) == Ok::<i128, Seq<char>>(n),
            Err(e) => plain_datetime_parse(value@, format@) == Err::<i128, Seq<char>>(e@),
        },
{
    let items = match time::format_description::parse_borrowed::<1>(format) {
        Ok(items) => items,
        Err(e) => return Err(e.to_string()),
    };
    match time::PrimitiveDateTime::parse(value, &items) {
        Ok(dt) => Ok(dt.assume_utc().unix_timestamp_nanos()),
        Err(e) => Err(e.to_string()),
    }
}

} // verus!
