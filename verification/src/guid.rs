//! Fresh identifiers and the current time, from outside crates.
use vstd::prelude::*;

verus! {

/// The identifier that stands for "no identifier yet": all zeros.
pub const EMPTY_GUID: &'static str = "00000000-0000-0000-0000-000000000000";

/// Calls `guid_create::GUID::rand()` and renders the identifier with
/// `to_string()`. The value is random, so nothing is claimed of it but its
/// shape, which the crate's `Display` writes as
/// `{:08X}-{:04X}-{:04X}-{:04X}-{:08X}{:04X}`: 36 characters, dashes at
/// positions 8, 13, 18 and 23, and zero-padded uppercase hexadecimal digits
/// elsewhere.
#[verifier::external_body]
pub(crate) fn new_guid_text() -> (r: String)
    ensures
        is_guid_pattern(r@),
        upper_guid(r@) == r@,
        r@.len() == 36,
        r@[8] == '-',
        r@[13] == '-',
        r@[18] == '-',
        r@[23] == '-',
{
    guid_create::GUID::rand().to_string()
}

/// Calls `chrono::Utc::now()` and renders the time with `to_string()`.
/// The value depends on the clock, so nothing is claimed of it.
#[verifier::external_body]
pub(crate) fn utc_now_text() -> (r: String) {
    chrono::Utc::now().to_string()
}

/// Calls `chrono::Utc::now()` and renders the time with `to_rfc2822()`.
/// The value depends on the clock, so nothing is claimed of it.
#[verifier::external_body]
pub(crate) fn utc_now_rfc2822() -> (r: String) {
    chrono::Utc::now().to_rfc2822()
}

/// A hexadecimal digit, in either case.
pub open spec fn is_hex_char(c: char) -> bool {
    ('0' <= c && c <= '9') || ('a' <= c && c <= 'f') || ('A' <= c && c <= 'F')
}

/// The text of a GUID: 36 characters, dashes at positions 8, 13, 18 and 23
/// and hexadecimal digits elsewhere.
pub open spec fn is_guid_pattern(s: Seq<char>) -> bool {
    &&& s.len() == 36
    &&& forall|i: int|
        0 <= i < 36 ==> if i == 8 || i == 13 || i == 18 || i == 23 {
            #[trigger] s[i] == '-'
        } else {
            is_hex_char(s[i])
        }
}

/// A character with a lowercase hexadecimal letter made uppercase.
pub open spec fn hex_upper(c: char) -> char {
    if 'a' <= c && c <= 'f' {
        ((c as int) - 32) as char
    } else {
        c
    }
}

/// The text of a GUID with its hexadecimal letters made uppercase.
pub open spec fn upper_guid(s: Seq<char>) -> Seq<char> {
    s.map_values(|c: char| hex_upper(c))
}

/// Calls `guid_create::GUID::parse` and renders the result with
/// `to_string()`. The crate's parser takes two hexadecimal digits of
/// either case for each of the sixteen bytes, with a dash after the 4th,
/// 6th, 8th and 10th byte and nothing after the last; its `Display` writes
/// the bytes back in the same order as uppercase digits with the dashes in
/// the same places. So a text in the shape of a GUID comes back with its
/// letters made uppercase, and any other text is refused.
#[verifier::external_body]
pub(crate) fn canonical_guid(s: &str) -> (r: Option<String>)
    ensures
        match r {
            Some(t) => is_guid_pattern(s@) && t@ == upper_guid(s@),
            None => !is_guid_pattern(s@),
        },
{
    match guid_create::GUID::parse(s) {
        Ok(g) => Some(g.to_string()),
        Err(_) => None,
    }
}

/// The text of the UTC time that `s` reads as under the format `fmt`, if
/// it reads as one: what `chrono` parses and then writes with `to_string`.
pub uninterp spec fn utc_text_of(s: Seq<char>, fmt: Seq<char>) -> Option<Seq<char>>;

/// Calls `chrono::TimeZone::datetime_from_str` on `chrono::Utc` with the
/// text `s` and the format `fmt`, and renders a parsed time with
/// `to_string()`. Parsing follows the format's rules and the result depends
/// on the two texts alone; it is named `utc_text_of` and nothing more is
/// said of it.
#[verifier::external_body]
#[allow(deprecated)]
pub(crate) fn parse_utc_text(s: &str, fmt: &str) -> (r: Option<String>)
    ensures
        match r {
            Some(t) => utc_text_of(s@, fmt@) == Some(t@),
            None => utc_text_of(s@, fmt@) is None,
        },
{
    match chrono::TimeZone::datetime_from_str(&chrono::Utc, s, fmt) {
        Ok(d) => Some(d.to_string()),
        Err(_) => None,
    }
}

/// The text of a GUID, once its letters are made uppercase, is the text of
/// a GUID that stays as it is: parsing and writing again the text that
/// `canonical_guid` gave back gives the same text.
pub proof fn law_canonical_guid_is_stable(s: Seq<char>)
    requires
        is_guid_pattern(s),
    ensures
        is_guid_pattern(upper_guid(s)),
        upper_guid(upper_guid(s)) == upper_guid(s),
{
    let u = upper_guid(s);
    assert forall|i: int| 0 <= i < 36 implies (if i == 8 || i == 13 || i == 18 || i == 23 {
        #[trigger] u[i] == '-'
    } else {
        is_hex_char(u[i])
    }) by {
        assert(u[i] == hex_upper(s[i]));
    }
    assert(upper_guid(u) =~= u);
}

} // verus!
