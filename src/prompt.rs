use vstd::prelude::*;

verus! {

/// Whether a character has the Unicode `White_Space` property.
pub open spec fn is_white_space(c: char) -> bool {
    c == '\t' || c == '\n' || c == '\u{0B}' || c == '\u{0C}' || c == '\r' || c == ' ' || c
        == '\u{85}' || c == '\u{A0}' || c == '\u{1680}' || ('\u{2000}' <= c && c <= '\u{200A}')
        || c == '\u{2028}' || c == '\u{2029}' || c == '\u{202F}' || c == '\u{205F}' || c
        == '\u{3000}'
}

/// The text without its leading whitespace.
pub open spec fn trim_start_of(s: Seq<char>) -> Seq<char>
    decreases s.len(),
{
    if s.len() > 0 && is_white_space(s[0]) {
        trim_start_of(s.drop_first())
    } else {
        s
    }
}

/// The text without its trailing whitespace.
pub open spec fn trim_end_of(s: Seq<char>) -> Seq<char>
    decreases s.len(),
{
    if s.len() > 0 && is_white_space(s.last()) {
        trim_end_of(s.drop_last())
    } else {
        s
    }
}

/// The text with leading and trailing whitespace removed.
pub open spec fn trim_of(s: Seq<char>) -> Seq<char> {
    trim_end_of(trim_start_of(s))
}

/// Relies on `str::trim`: the same text without the leading and trailing
/// characters that have the `White_Space` property.
#[verifier::external_body]
fn trim_str(s: &str) -> (r: &str)
    ensures
        r@ == trim_of(s@),
{
    s.trim()
}

/// An ASCII lower-case letter in upper case; any other character unchanged.
pub open spec fn upper_char(c: char) -> char {
    if 'a' <= c && c <= 'z' {
        ((c as u8) - 32) as char
    } else {
        c
    }
}

/// Relies on `str::to_ascii_uppercase`: each ASCII letter in upper case,
/// every other character kept.
#[verifier::external_body]
fn ascii_upper(s: &str) -> (r: String)
    ensures
        r@.len() == s@.len(),
        forall|i: int| 0 <= i < s@.len() ==> r@[i] == upper_char(#[trigger] s@[i]),
{
    s.to_ascii_uppercase()
}

/// The answer a normalised reply stands for, if it is one.
pub open spec fn answer_of(s: Seq<char>) -> Option<bool> {
    if s == "YES"@ || s == "Y"@ || s == "TRUE"@ || s == "T"@ {
        Some(true)
    } else if s == "NO"@ || s == "N"@ || s == "FALSE"@ || s == "F"@ {
        Some(false)
    } else {
        None
    }
}

/// The text of a reply after trimming and upper-casing.
pub open spec fn normalised(input: Seq<char>) -> Seq<char> {
    trim_of(input).map_values(|c: char| upper_char(c))
}

/// Reads a yes/no reply: yes, y, true or t agree, no, n, false or f decline,
/// in any case and with surrounding whitespace; anything else is no answer.
pub fn confirmation_answer(input: &str) -> (r: Option<bool>)
    ensures
        r == answer_of(normalised(input@)),
{
    let trimmed = trim_str(input);
    answer_for_trimmed(trimmed)
}

/// Reads a reply that has already been trimmed, in any letter case.
pub fn answer_for_trimmed(trimmed: &str) -> (r: Option<bool>)
    ensures
        r == answer_of(trimmed@.map_values(|c: char| upper_char(c))),
{
    let reply = ascii_upper(trimmed);
    assert(reply@ =~= trimmed@.map_values(|c: char| upper_char(c)));
    if reply == "YES".to_owned() || reply == "Y".to_owned() || reply == "TRUE".to_owned()
        || reply == "T".to_owned() {
        Some(true)
    } else if reply == "NO".to_owned() || reply == "N".to_owned() || reply == "FALSE".to_owned()
        || reply == "F".to_owned() {
        Some(false)
    } else {
        None
    }
}

} // verus!
