//! The library's view of JSON documents: text, read through serde_json.
use vstd::prelude::*;

verus! {

/// What serde_json reports when a text fails to parse as one JSON value
/// (`None` when it parses).
pub uninterp spec fn json_parse_error(text: Seq<char>) -> Option<Seq<char>>;

/// A lowercase hexadecimal digit.
pub open spec fn hex_digit(n: u32) -> char {
    seq!['0', '1', '2', '3', '4', '5', '6', '7', '8', '9', 'a', 'b', 'c', 'd', 'e', 'f'][(n % 16) as int]
}

/// How one character stands inside a JSON string: `"` and `\\` behind a
/// backslash, the short escapes for backspace, tab, line feed, form feed and
/// carriage return, `\\u00XX` for the other control characters below 0x20,
/// and every other character as it is.
pub open spec fn escaped_char(c: char) -> Seq<char> {
    if c == '"' {
        seq!['\\', '"']
    } else if c == '\\' {
        seq!['\\', '\\']
    } else if c == '\u{8}' {
        seq!['\\', 'b']
    } else if c == '\t' {
        seq!['\\', 't']
    } else if c == '\n' {
        seq!['\\', 'n']
    } else if c == '\u{c}' {
        seq!['\\', 'f']
    } else if c == '\r' {
        seq!['\\', 'r']
    } else if (c as u32) < 0x20 {
        seq!['\\', 'u', '0', '0', hex_digit((c as u32) / 16), hex_digit(c as u32)]
    } else {
        seq![c]
    }
}

/// The characters of a string, each escaped.
pub open spec fn escaped(s: Seq<char>) -> Seq<char>
    decreases s.len(),
{
    if s.len() == 0 {
        Seq::empty()
    } else {
        escaped(s.drop_last()) + escaped_char(s.last())
    }
}

/// The compact JSON text of a string value: quoted, with escapes.
pub open spec fn json_string_text(s: Seq<char>) -> Seq<char> {
    seq!['"'] + escaped(s) + seq!['"']
}

/// A JSON string's text never holds a line feed: it is escaped.
pub proof fn lemma_string_text_has_no_line_feed(s: Seq<char>)
    ensures
        forall|i: int| 0 <= i < json_string_text(s).len() ==> json_string_text(s)[i] != '\n',
    decreases s.len(),
{
    lemma_escaped_has_no_line_feed(s);
    let t = json_string_text(s);
    assert forall|i: int| 0 <= i < t.len() implies t[i] != '\n' by {
        if 0 < i < t.len() - 1 {
            assert(t[i] == escaped(s)[i - 1]);
        }
    }
}

proof fn lemma_escaped_has_no_line_feed(s: Seq<char>)
    ensures
        forall|i: int| 0 <= i < escaped(s).len() ==> escaped(s)[i] != '\n',
    decreases s.len(),
{
    if s.len() > 0 {
        lemma_escaped_has_no_line_feed(s.drop_last());
        let a = escaped(s.drop_last());
        let b = escaped_char(s.last());
        let c = s.last();
        if c != '"' && c != '\\' && c != '\u{8}' && c != '\t' && c != '\n' && c != '\u{c}'
            && c != '\r' && (c as u32) < 0x20 {
            let digits = seq![
                '0', '1', '2', '3', '4', '5', '6', '7', '8', '9', 'a', 'b', 'c', 'd', 'e', 'f',
            ];
            assert forall|k: int| 0 <= k < 16 implies digits[k] != '\n' by {}
            assert(hex_digit((c as u32) / 16) != '\n');
            assert(hex_digit(c as u32) != '\n');
        }
        assert forall|i: int| 0 <= i < escaped(s).len() implies escaped(s)[i] != '\n' by {
            if i >= a.len() {
                assert(escaped(s)[i] == b[i - a.len()]);
            } else {
                assert(escaped(s)[i] == a[i]);
            }
        }
    }
}

/// The compact JSON text of the top-level member `key` of the document `doc`,
/// or `None` where the document does not parse, is not an object, or has no
/// such member.
pub uninterp spec fn json_member(doc: Seq<char>, key: Seq<char>) -> Option<Seq<char>>;

/// The string held by the top-level member `key` of the document `doc`, or
/// `None` where there is no such member or it is not a JSON string.
pub uninterp spec fn json_member_str(doc: Seq<char>, key: Seq<char>) -> Option<Seq<char>>;

/// Whether `text` is one JSON value.
pub open spec fn json_valid(text: Seq<char>) -> bool {
    json_parse_error(text) is None
}

/// Relies on `serde_json::from_str::<serde_json::Value>`: parses the whole text
/// as one JSON value; on failure, the error's `Display` text.
#[verifier::external_body]
pub(crate) fn check_json(text: &str) -> (r: Result<(), String>)
    ensures
        match r {
            Ok(()) => json_parse_error(text@) is None,
            Err(e) => json_parse_error(text@) == Some(e@),
        },
{
    match serde_json::from_str::<serde_json::Value>(text) {
        Ok(_) => Ok(()),
        Err(e) => Err(e.to_string()),
    }
}

/// Relies on `Display` for `serde_json::Value::String`, which writes the string
/// through serde_json's escape table: quotes, then each character escaped as
/// [`escaped_char`] says, then quotes.
#[verifier::external_body]
pub(crate) fn quote_json(s: &str) -> (r: String)
    ensures
        r@ == json_string_text(s@),
{
    serde_json::Value::String(s.to_string()).to_string()
}

/// Relies on `serde_json::from_str`, `serde_json::Value::get` and `Display` for
/// `serde_json::Value`: the compact text of one top-level member.
#[verifier::external_body]
pub(crate) fn member_text(doc: &str, key: &str) -> (r: Option<String>)
    ensures
        match r {
            Some(t) => json_member(doc@, key@) == Some(t@),
            None => json_member(doc@, key@) is None,
        },
{
    serde_json::from_str::<serde_json::Value>(doc)
        .ok()
        .and_then(|v| v.get(key).map(|m| m.to_string()))
}

/// Relies on `serde_json::from_str`, `serde_json::Value::get` and
/// `serde_json::Value::as_str`: the string held by one top-level member.
#[verifier::external_body]
pub(crate) fn member_str(doc: &str, key: &str) -> (r: Option<String>)
    ensures
        match r {
            Some(t) => json_member_str(doc@, key@) == Some(t@),
            None => json_member_str(doc@, key@) is None,
        },
{
    serde_json::from_str::<serde_json::Value>(doc)
        .ok()
        .and_then(|v| v.get(key).and_then(|m| m.as_str().map(|s| s.to_string())))
}

} // verus!
