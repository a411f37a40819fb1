//! Document data: the text of one JSON value.

use vstd::prelude::*;

verus! {

/// What `serde_json::value::RawValue::from_string` makes of a text: the
/// text of the one JSON value it holds, without surrounding whitespace, or
/// nothing when the text is not exactly one JSON value.
pub uninterp spec fn spec_raw_json(text: Seq<char>) -> Option<Seq<char>>;

/// The whitespace that JSON allows around a value.
pub open spec fn is_json_whitespace(c: char) -> bool {
    c == ' ' || c == '\t' || c == '\n' || c == '\r'
}

pub open spec fn spec_trim_start(s: Seq<char>) -> Seq<char>
    decreases s.len(),
{
    if s.len() > 0 && is_json_whitespace(s[0]) {
        spec_trim_start(s.drop_first())
    } else {
        s
    }
}

pub open spec fn spec_trim_end(s: Seq<char>) -> Seq<char>
    decreases s.len(),
{
    if s.len() > 0 && is_json_whitespace(s.last()) {
        spec_trim_end(s.drop_last())
    } else {
        s
    }
}

/// A text without the JSON whitespace around it.
pub open spec fn spec_json_trim(s: Seq<char>) -> Seq<char> {
    spec_trim_end(spec_trim_start(s))
}

/// Calls `serde_json::value::RawValue::from_string`. Claimed: the result is
/// the text of the value that `from_string` accepts, or `None` where it
/// returns an error; both as the name [`spec_raw_json`] gives them. The text
/// kept is the given text without the JSON whitespace around it (serde_json
/// skips whitespace before the value, allows only whitespace after it, and
/// keeps the slice in between).
#[verifier::external_body]
fn raw_json(text: String) -> (r: Option<String>)
    ensures
        r is Some <==> spec_raw_json(text@) is Some,
        r matches Some(t) ==> spec_raw_json(text@) == Some(t@),
        r matches Some(t) ==> t@ == spec_json_trim(text@),
{
    match serde_json::value::RawValue::from_string(text) {
        Ok(raw) => Some(raw.get().to_string()),
        Err(_) => None,
    }
}

/// The text of one JSON value, stored and compared verbatim.
#[derive(Clone, Debug, PartialEq, Eq)]
pub struct Json {
    text: String,
}

impl View for Json {
    type V = Seq<char>;

    closed spec fn view(&self) -> Seq<char> {
        self.text@
    }
}

impl Json {
    /// Checks that a text is one JSON value; keeps the value's text, that
    /// is the text without the whitespace around it.
    pub fn parse(text: String) -> (r: Option<Json>)
        ensures
            r is Some <==> spec_raw_json(text@) is Some,
            r matches Some(j) ==> spec_raw_json(text@) == Some(j@),
            r matches Some(j) ==> j@ == spec_json_trim(text@),
    {
        match raw_json(text) {
            Some(t) => Some(Json { text: t }),
            None => None,
        }
    }

    /// The JSON value `null`, which stands for data not read.
    pub fn null() -> (r: Json)
        ensures
            r@ == "null"@,
    {
        Json { text: String::from_str("null") }
    }

    /// The value's text.
    pub fn as_str(&self) -> (r: &str)
        ensures
            r@ == self@,
    {
        self.text.as_str()
    }

    /// Whether two values have the same text.
    pub fn same_as(&self, other: &Json) -> (r: bool)
        ensures
            r == (self@ == other@),
    {
        self.text == other.text
    }
}

} // verus!
