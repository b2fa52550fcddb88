//! A shallow model of JSON documents, as far as the library's error handling reads them.
//!
//! A document is known one level deep: nested values are kept as their compact JSON
//! text, and are parsed again when the library needs to look inside them.

use vstd::prelude::*;
use crate::text::{chars_eq, chars_of};

verus! {

/// The top level of a parsed JSON document.
#[derive(Debug)]
pub enum JsonValue {
    /// `null`.
    Null,
    /// `true` or `false`.
    Bool(bool),
    /// A number; the value is kept when it is a non-negative integer that fits in `u64`.
    Number(Option<u64>),
    /// A string.
    Str(String),
    /// An array; each element as compact JSON text.
    Array(Vec<String>),
    /// An object; each key with its value as compact JSON text, in the order the parser yields them.
    Object(Vec<(String, String)>),
}

/// A parsed JSON document: its top-level value and its compact serialization.
#[derive(Debug)]
pub struct JsonDoc {
    /// The top-level value.
    pub value: JsonValue,
    /// The document serialized compactly.
    pub text: String,
}

/// Mathematical view of a [`JsonValue`].
pub enum JsonValueView {
    Null,
    Bool(bool),
    Number(Option<u64>),
    Str(Seq<char>),
    Array(Seq<Seq<char>>),
    Object(Seq<(Seq<char>, Seq<char>)>),
}

/// Mathematical view of a [`JsonDoc`].
pub struct JsonDocView {
    pub value: JsonValueView,
    pub text: Seq<char>,
}

impl View for JsonValue {
    type V = JsonValueView;

    open spec fn view(&self) -> JsonValueView {
        match self {
            JsonValue::Null => JsonValueView::Null,
            JsonValue::Bool(b) => JsonValueView::Bool(*b),
            JsonValue::Number(n) => JsonValueView::Number(*n),
            JsonValue::Str(s) => JsonValueView::Str(s@),
            JsonValue::Array(a) => JsonValueView::Array(a@.map_values(|x: String| x@)),
            JsonValue::Object(o) => JsonValueView::Object(
                o@.map_values(|e: (String, String)| (e.0@, e.1@)),
            ),
        }
    }
}

impl View for JsonDoc {
    type V = JsonDocView;

    open spec fn view(&self) -> JsonDocView {
        JsonDocView { value: self.value@, text: self.text@ }
    }
}

fn clone_strings(v: &Vec<String>) -> (r: Vec<String>)
    ensures
        r@.map_values(|x: String| x@) == v@.map_values(|x: String| x@),
{
    let mut r: Vec<String> = Vec::new();
    let mut i: usize = 0;
    while i < v.len()
        invariant
            i <= v@.len(),
            r@.len() == i,
            forall|j: int| 0 <= j < i ==> (#[trigger] r@[j])@ == v@[j]@,
        decreases v@.len() - i,
    {
        r.push(v[i].clone());
        i = i + 1;
    }
    assert(r@.map_values(|x: String| x@) =~= v@.map_values(|x: String| x@));
    r
}

fn clone_entries(v: &Vec<(String, String)>) -> (r: Vec<(String, String)>)
    ensures
        entries_view(r@) == entries_view(v@),
{
    let mut r: Vec<(String, String)> = Vec::new();
    let mut i: usize = 0;
    while i < v.len()
        invariant
            i <= v@.len(),
            r@.len() == i,
            forall|j: int| 0 <= j < i ==> (#[trigger] r@[j]).0@ == v@[j].0@ && r@[j].1@ == v@[j].1@,
        decreases v@.len() - i,
    {
        r.push((v[i].0.clone(), v[i].1.clone()));
        i = i + 1;
    }
    assert(entries_view(r@) =~= entries_view(v@));
    r
}

impl Clone for JsonValue {
    fn clone(&self) -> (r: Self)
        ensures
            r@ == self@,
    {
        match self {
            JsonValue::Null => JsonValue::Null,
            JsonValue::Bool(b) => JsonValue::Bool(*b),
            JsonValue::Number(n) => JsonValue::Number(*n),
            JsonValue::Str(s) => JsonValue::Str(s.clone()),
            JsonValue::Array(a) => JsonValue::Array(clone_strings(a)),
            JsonValue::Object(o) => {
                let c = clone_entries(o);
                assert(entries_view(o@) == o@.map_values(|e: (String, String)| (e.0@, e.1@)));
                JsonValue::Object(c)
            },
        }
    }
}

impl Clone for JsonDoc {
    fn clone(&self) -> (r: Self)
        ensures
            r@ == self@,
    {
        JsonDoc { value: self.value.clone(), text: self.text.clone() }
    }
}

pub open spec fn opt_doc_view(d: Option<JsonDoc>) -> Option<JsonDocView> {
    match d {
        Some(x) => Some(x@),
        None => None,
    }
}

/// What `serde_json::from_str::<serde_json::Value>` gives for a text, seen through [`JsonDocView`].
pub uninterp spec fn spec_json_parse(text: Seq<char>) -> Option<JsonDocView>;

#[verifier::external_type_specification]
#[verifier::external_body]
pub struct ExSerdeJsonError(serde_json::Error);

/// Parses `text` with `serde_json::from_str::<serde_json::Value>`.
/// The contract only names the result: an error exactly when the name gives none,
/// otherwise the top-level value (children re-serialized with `to_string`) and the
/// compact text.
#[verifier::external_body]
pub(crate) fn json_parse(text: &str) -> (r: Result<JsonDoc, serde_json::Error>)
    ensures
        match r {
            Ok(d) => spec_json_parse(text@) == Some(d@),
            Err(_) => spec_json_parse(text@) is None,
        },
{
    let v: serde_json::Value = serde_json::from_str(text)?;
    let text = v.to_string();
    let value = match v {
        serde_json::Value::Null => JsonValue::Null,
        serde_json::Value::Bool(b) => JsonValue::Bool(b),
        serde_json::Value::Number(n) => JsonValue::Number(n.as_u64()),
        serde_json::Value::String(s) => JsonValue::Str(s),
        serde_json::Value::Array(a) => JsonValue::Array(a.iter().map(ToString::to_string).collect()),
        serde_json::Value::Object(m) => JsonValue::Object(m.into_iter().map(|(k, x)| (k, x.to_string())).collect()),
    };
    Ok(JsonDoc { value, text })
}

/// The description `serde_json` gives of a parse error (its `Display` text). Nothing is
/// claimed of the text.
#[verifier::external_body]
pub(crate) fn json_error_text(e: &serde_json::Error) -> (r: String) {
    e.to_string()
}

/// Parses a JSON text; `None` when it is not JSON.
pub(crate) fn parse_json(text: &str) -> (r: Option<JsonDoc>)
    ensures
        opt_doc_view(r) == spec_json_parse(text@),
{
    match json_parse(text) {
        Ok(d) => Some(d),
        Err(_) => None,
    }
}

/// Lower-case hexadecimal digit.
pub open spec fn hex_digit(n: int) -> char {
    if n < 10 {
        (('0' as int) + n) as char
    } else {
        (('a' as int) + n - 10) as char
    }
}

/// The escaped form of one character inside a JSON string, as serde_json writes it.
pub open spec fn json_escape_char(c: char) -> Seq<char> {
    if c == '"' {
        seq!['\\', '"']
    } else if c == '\\' {
        seq!['\\', '\\']
    } else if c == '\u{8}' {
        seq!['\\', 'b']
    } else if c == '\t' {
        seq!['\\', 't']
    } else if c == '\n' {
        seq!['\\', 'n']
    } else if c == '\u{c}' {
        seq!['\\', 'f']
    } else if c == '\r' {
        seq!['\\', 'r']
    } else if (c as int) < 0x20 {
        seq!['\\', 'u', '0', '0', hex_digit((c as int) / 16), hex_digit((c as int) % 16)]
    } else {
        seq![c]
    }
}

/// The escaped contents of a JSON string.
pub open spec fn json_escape(s: Seq<char>) -> Seq<char>
    decreases s.len(),
{
    if s.len() == 0 {
        seq![]
    } else {
        json_escape(s.drop_last()) + json_escape_char(s.last())
    }
}

/// A string as a JSON string literal.
pub open spec fn json_quote(s: Seq<char>) -> Seq<char> {
    seq!['"'] + json_escape(s) + seq!['"']
}

/// `serde_json::to_string` of a string: the string quoted, with `"`, `\` and
/// control characters escaped (short escapes where JSON has them, `\u00XX` otherwise).
#[verifier::external_body]
pub(crate) fn json_quote_str(s: &str) -> (r: String)
    ensures
        r@ == json_quote(s@),
{
    serde_json::to_string(s).unwrap_or_default()
}

/// The value of `key` in an object's entries (first match).
pub open spec fn entries_get(entries: Seq<(Seq<char>, Seq<char>)>, key: Seq<char>) -> Option<Seq<char>>
    decreases entries.len(),
{
    if entries.len() == 0 {
        None
    } else if entries[0].0 == key {
        Some(entries[0].1)
    } else {
        entries_get(entries.drop_first(), key)
    }
}

/// `serde_json::Value::get(key)`, with the child as compact text.
pub open spec fn value_get(v: JsonValueView, key: Seq<char>) -> Option<Seq<char>> {
    match v {
        JsonValueView::Object(entries) => entries_get(entries, key),
        _ => None,
    }
}

/// The first key of `keys` that is present in `v`, with its child.
pub open spec fn value_get_first(v: JsonValueView, keys: Seq<Seq<char>>) -> Option<Seq<char>>
    decreases keys.len(),
{
    if keys.len() == 0 {
        None
    } else {
        match value_get(v, keys[0]) {
            Some(c) => Some(c),
            None => value_get_first(v, keys.drop_first()),
        }
    }
}

/// The string held by a child given as JSON text (`as_str`).
pub open spec fn child_str(child: Seq<char>) -> Option<Seq<char>> {
    match spec_json_parse(child) {
        Some(d) => match d.value {
            JsonValueView::Str(s) => Some(s),
            _ => None,
        },
        None => None,
    }
}

/// The `u64` held by a child given as JSON text (`as_u64`).
pub open spec fn child_u64(child: Seq<char>) -> Option<u64> {
    match spec_json_parse(child) {
        Some(d) => match d.value {
            JsonValueView::Number(n) => n,
            _ => None,
        },
        None => None,
    }
}

/// The first key of a child object given as JSON text (`as_object` then `keys().next()`).
pub open spec fn child_first_key(child: Seq<char>) -> Option<Seq<char>> {
    match spec_json_parse(child) {
        Some(d) => match d.value {
            JsonValueView::Object(entries) => if entries.len() > 0 {
                Some(entries[0].0)
            } else {
                None
            },
            _ => None,
        },
        None => None,
    }
}

/// The entries of a child given as JSON text, when it is an object (`as_object`).
pub open spec fn child_object(child: Seq<char>) -> Option<Seq<(Seq<char>, Seq<char>)>> {
    match spec_json_parse(child) {
        Some(d) => match d.value {
            JsonValueView::Object(entries) => Some(entries),
            _ => None,
        },
        None => None,
    }
}

pub open spec fn opt_string_view(o: Option<String>) -> Option<Seq<char>> {
    match o {
        Some(s) => Some(s@),
        None => None,
    }
}

/// An object's entries as plain sequences.
pub open spec fn entries_view(e: Seq<(String, String)>) -> Seq<(Seq<char>, Seq<char>)> {
    e.map_values(|x: (String, String)| (x.0@, x.1@))
}

/// The value of `key` among an object's entries (the first match).
pub fn object_get(entries: &Vec<(String, String)>, key: &str) -> (r: Option<String>)
    ensures
        opt_string_view(r) == entries_get(entries_view(entries@), key@),
{
    let ghost ev = entries_view(entries@);
    let kk = chars_of(key);
    let mut i: usize = 0;
    assert(ev.skip(0) == ev);
    while i < entries.len()
        invariant
            i <= entries@.len(),
            ev == entries_view(entries@),
            kk@ == key@,
            entries_get(ev, key@) == entries_get(ev.skip(i as int), key@),
        decreases entries@.len() - i,
    {
        assert(ev.skip(i as int).drop_first() == ev.skip(i + 1));
        assert(ev.skip(i as int)[0] == ev[i as int]);
        let k = chars_of(entries[i].0.as_str());
        if chars_eq(&k, &kk) {
            return Some(entries[i].1.clone());
        }
        i = i + 1;
    }
    None
}

impl JsonValue {
    /// The child of `key` when this is an object holding it.
    pub fn get(&self, key: &str) -> (r: Option<String>)
        ensures
            opt_string_view(r) == value_get(self@, key@),
    {
        match self {
            JsonValue::Object(entries) => object_get(entries, key),
            _ => None,
        }
    }

    /// The child of the first of `keys` that this object holds.
    pub fn get_first(&self, keys: &[&str]) -> (r: Option<String>)
        ensures
            opt_string_view(r) == value_get_first(self@, keys@.map_values(|k: &str| k@)),
    {
        let ghost kv = keys@.map_values(|k: &str| k@);
        let mut i: usize = 0;
        assert(kv.skip(0) == kv);
        while i < keys.len()
            invariant
                i <= keys@.len(),
                kv == keys@.map_values(|k: &str| k@),
                value_get_first(self@, kv) == value_get_first(self@, kv.skip(i as int)),
            decreases keys@.len() - i,
        {
            assert(kv.skip(i as int).drop_first() == kv.skip(i + 1));
            let c = self.get(keys[i]);
            if c.is_some() {
                return c;
            }
            i = i + 1;
        }
        None
    }
}

impl JsonDoc {
    /// Parses a JSON text; `None` when it is not JSON.
    pub fn parse(text: &str) -> (r: Option<JsonDoc>)
        ensures
            opt_doc_view(r) == spec_json_parse(text@),
    {
        parse_json(text)
    }

    /// The document serialized compactly.
    pub fn as_text(&self) -> (r: &str)
        ensures
            r@ == self@.text,
    {
        self.text.as_str()
    }
}

/// `as_str` of a child given as JSON text.
pub fn child_as_str(child: &str) -> (r: Option<String>)
    ensures
        opt_string_view(r) == child_str(child@),
{
    match parse_json(child) {
        Some(d) => match d.value {
            JsonValue::Str(s) => Some(s),
            _ => None,
        },
        None => None,
    }
}

/// `as_u64` of a child given as JSON text.
pub fn child_as_u64(child: &str) -> (r: Option<u64>)
    ensures
        r == child_u64(child@),
{
    match parse_json(child) {
        Some(d) => match d.value {
            JsonValue::Number(n) => n,
            _ => None,
        },
        None => None,
    }
}

/// `as_object` of a child given as JSON text.
pub fn child_as_object(child: &str) -> (r: Option<Vec<(String, String)>>)
    ensures
        match r {
            Some(e) => child_object(child@) == Some(entries_view(e@)),
            None => child_object(child@) is None,
        },
{
    match parse_json(child) {
        Some(d) => match d.value {
            JsonValue::Object(entries) => Some(entries),
            _ => None,
        },
        None => None,
    }
}

/// First key of a child object given as JSON text.
pub fn child_first_object_key(child: &str) -> (r: Option<String>)
    ensures
        opt_string_view(r) == child_first_key(child@),
{
    match parse_json(child) {
        Some(d) => match d.value {
            JsonValue::Object(entries) => if entries.len() > 0 {
                Some(entries[0].0.clone())
            } else {
                None
            },
            _ => None,
        },
        None => None,
    }
}

} // verus!
