use vstd::prelude::*;

verus! {

/// `toml::Value`, a parsed TOML value. What is inside one is not visible
/// here; `toml_view` names it.
#[verifier::external_type_specification]
#[verifier::external_body]
pub struct ExValue(toml::Value);

/// `toml::de::Error`, which says why a text is not TOML.
#[verifier::external_type_specification]
#[verifier::external_body]
pub struct ExParseError(toml::de::Error);

/// What a TOML value holds, as far as a configuration is read from it.
pub enum TomlView {
    /// A string and its text.
    Str(Seq<char>),
    /// An array and its items, in order.
    Array(Seq<TomlView>),
    /// A table and its entries, by key.
    Table(Map<Seq<char>, TomlView>),
    /// A number, a truth value or a date.
    Other,
}

/// What a value holds.
pub uninterp spec fn toml_view(value: toml::Value) -> TomlView;

/// What the TOML document `text` holds; nothing where the text is not a
/// TOML document.
pub uninterp spec fn toml_document(text: Seq<char>) -> Option<TomlView>;

/// What each of some values holds.
pub open spec fn toml_views(values: Seq<toml::Value>) -> Seq<TomlView> {
    Seq::new(values.len(), |i: int| toml_view(values[i]))
}

/// Calls `str::parse::<toml::Value>`, which is `toml::Value::from_str`.
/// Trusted: whether the text parses, and what the value then holds,
/// depends on the text alone.
#[verifier::external_body]
pub(crate) fn parse(text: &str) -> (parsed: Result<toml::Value, toml::de::Error>)
    ensures
        match parsed {
            Ok(value) => toml_document(text@) == Some(toml_view(value)),
            Err(_) => toml_document(text@) is None,
        },
{
    text.parse::<toml::Value>()
}

/// Calls `toml::Value::get` with a string key. Trusted: a table gives its
/// entry under that key, if it has one, and any other value gives none.
#[verifier::external_body]
pub(crate) fn get<'a>(value: &'a toml::Value, key: &str) -> (entry: Option<&'a toml::Value>)
    ensures
        match entry {
            Some(found) => toml_view(*value) matches TomlView::Table(entries)
                && entries.contains_key(key@) && entries[key@] == toml_view(*found),
            None => !(toml_view(*value) matches TomlView::Table(entries) && entries.contains_key(
                key@,
            )),
        },
{
    value.get(key)
}

/// Calls `toml::Value::as_str`. Trusted: a string gives its text and any
/// other value gives none.
#[verifier::external_body]
pub(crate) fn as_str<'a>(value: &'a toml::Value) -> (text: Option<&'a str>)
    ensures
        match text {
            Some(s) => toml_view(*value) == TomlView::Str(s@),
            None => !(toml_view(*value) is Str),
        },
{
    value.as_str()
}

/// Calls `toml::Value::as_array`. Trusted: an array gives its items and
/// any other value gives none.
#[verifier::external_body]
pub(crate) fn as_array<'a>(value: &'a toml::Value) -> (items: Option<&'a Vec<toml::Value>>)
    ensures
        match items {
            Some(a) => toml_view(*value) == TomlView::Array(toml_views(a@)),
            None => !(toml_view(*value) is Array),
        },
{
    value.as_array()
}

} // verus!
