//! Who sent a request: the user identifier in the request's cookie.

use vstd::prelude::*;
use crate::error::Error;
use crate::text::hex_value;
use crate::values::Uuid;

verus! {

/// The name of the cookie that carries the user identifier.
pub const USER_ID_COOKIE: &'static str = "todo_app_user_id";

/// Whether every character of the text is ASCII.
pub open spec fn all_ascii(text: Seq<char>) -> bool {
    forall|i: int| 0 <= i < text.len() ==> (#[trigger] text[i] as u32) < 128
}

/// The letter in lower case, for ASCII letters; other characters as they are.
pub open spec fn ascii_lower(c: char) -> char {
    if 65 <= (c as u32) <= 90 {
        ((c as u32) + 32) as char
    } else {
        c
    }
}

/// The 32 digits of a hyphenated identifier: 36 characters with hyphens at
/// 8, 13, 18 and 23.
pub open spec fn hyphenated_digits(s: Seq<char>) -> Option<Seq<char>> {
    if s.len() == 36 && s[8] == '-' && s[13] == '-' && s[18] == '-' && s[23] == '-' {
        Some(s.subrange(0, 8) + s.subrange(9, 13) + s.subrange(14, 18) + s.subrange(19, 23) + s.subrange(24, 36))
    } else {
        None
    }
}

/// The digits of an identifier in one of the forms `uuid::Uuid::try_parse`
/// reads: 32 digits; the hyphenated form; the hyphenated form in braces;
/// the hyphenated form after `urn:uuid:`, that prefix in either case.
pub open spec fn uuid_digits(text: Seq<char>) -> Option<Seq<char>> {
    if !all_ascii(text) {
        None
    } else if text.len() == 32 {
        Some(text)
    } else if text.len() == 36 {
        hyphenated_digits(text)
    } else if text.len() == 38 && text[0] == '{' && text[37] == '}' {
        hyphenated_digits(text.subrange(1, 37))
    } else if text.len() == 45 && text.subrange(0, 9).map_values(|c: char| ascii_lower(c)) == seq![
        'u',
        'r',
        'n',
        ':',
        'u',
        'u',
        'i',
        'd',
        ':',
    ] {
        hyphenated_digits(text.subrange(9, 45))
    } else {
        None
    }
}

/// What `uuid::Uuid::try_parse` gives for a text: the identifier's 128 bits,
/// its 32 hexadecimal digits read most significant first (in either case),
/// or nothing when the text is not an identifier. The parser counts bytes,
/// so a text with a character outside ASCII is never an identifier.
pub open spec fn uuid_parse(text: Seq<char>) -> Option<u128> {
    match uuid_digits(text) {
        Some(d) => match hex_value(d) {
            Some(v) => Some(v as u128),
            None => None,
        },
        None => None,
    }
}

/// Calls `uuid::Uuid::try_parse` and keeps the identifier's bits.
///
/// Trusted: the result is `uuid_parse` of the text, as the parser's
/// `try_parse`, `parse_simple`, `parse_hyphenated` and `decode_hex32` show,
/// and `as_u128` reads the bytes most significant first.
#[verifier::external_body]
fn try_parse_uuid(text: &str) -> (r: Option<Uuid>)
    ensures
        r == match uuid_parse(text@) {
            Some(bits) => Some(Uuid(bits)),
            None => None,
        },
{
    uuid::Uuid::try_parse(text).ok().map(|u| Uuid(u.as_u128()))
}

/// The message when no user identifier was sent.
pub open spec fn not_sent_message() -> Seq<char> {
    "User ID was not sent"@
}

/// The message when the user identifier is not an identifier.
pub open spec fn not_uuid_message() -> Seq<char> {
    "User ID was not a UUID format"@
}

/// The user identifier, given whether the cookie was sent and what parsing
/// its value gave.
pub fn user_id_outcome(sent: bool, parsed: Option<Uuid>) -> (r: Result<Uuid, Error>)
    ensures
        !sent ==> (r matches Err(Error::InvalidRequest(m)) && m@ == not_sent_message()),
        sent && parsed is None ==> (r matches Err(Error::InvalidRequest(m)) && m@ == not_uuid_message()),
        sent && parsed is Some ==> r == Ok::<Uuid, Error>(parsed->0),
{
    if !sent {
        return Err(Error::InvalidRequest("User ID was not sent".to_owned()));
    }
    match parsed {
        Some(i) => Ok(i),
        None => Err(Error::InvalidRequest("User ID was not a UUID format".to_owned())),
    }
}

/// The user identifier from the value of the user cookie, if one was sent.
pub fn extract_user_id(cookie: Option<&str>) -> (r: Result<Uuid, Error>)
    ensures
        match cookie {
            None => r matches Err(Error::InvalidRequest(m)) && m@ == not_sent_message(),
            Some(t) => match uuid_parse(t@) {
                Some(bits) => r == Ok::<Uuid, Error>(Uuid(bits)),
                None => r matches Err(Error::InvalidRequest(m)) && m@ == not_uuid_message(),
            },
        },
{
    match cookie {
        None => user_id_outcome(false, None),
        Some(t) => user_id_outcome(true, try_parse_uuid(t)),
    }
}

} // verus!
