//! Configuration documents: TOML text, parsed by the `toml` crate, and the
//! strings that a parsed document holds.
use vstd::prelude::*;

verus! {

/// A value of a TOML document, as the `toml` crate represents it.
#[verifier::external_type_specification]
#[verifier::external_body]
pub struct ExTomlValue(toml::Value);

/// The strings that a TOML value holds, each under the path of table keys
/// that leads to it. A string itself holds one entry, under the empty path;
/// a table holds the entries of its members, each path prefixed by the
/// member's key. Values of other types hold none.
pub type Strings = Map<Seq<Seq<char>>, Seq<char>>;

/// The strings that `value` holds.
pub uninterp spec fn toml_strings(value: toml::Value) -> Strings;

/// The strings of the document that `text` is parsed to, or `None` where
/// `text` is not a TOML document.
pub uninterp spec fn toml_document(text: Seq<char>) -> Option<Strings>;

/// The entries of `strings` whose path begins with `key`, with that key
/// taken off the path.
pub open spec fn strings_under(strings: Strings, key: Seq<char>) -> Strings {
    Map::new(
        |rest: Seq<Seq<char>>| strings.contains_key(seq![key] + rest),
        |rest: Seq<Seq<char>>| strings[seq![key] + rest],
    )
}

/// The string that `strings` holds for `key` in the table `table`.
pub open spec fn string_at(strings: Strings, table: Seq<char>, key: Seq<char>) -> Option<
    Seq<char>,
> {
    if strings.contains_key(seq![table, key]) {
        Some(strings[seq![table, key]])
    } else {
        None
    }
}

/// Parses `text` with the `FromStr` of `toml::Value`, which runs
/// `toml::Parser::parse` and wraps the table that it gives.
///
/// Trusted: whether the parse succeeds and what strings the document holds
/// depends on the text alone; the contract names both `toml_document`.
#[verifier::external_body]
pub(crate) fn parse_document(text: &str) -> (r: Option<toml::Value>)
    ensures
        match r {
            Some(document) => toml_document(text@) == Some(toml_strings(document)),
            None => toml_document(text@) is None,
        },
{
    text.parse::<toml::Value>().ok()
}

/// The member `key` of a table: `toml::Value::as_table`, then the `get` of
/// the table's map.
///
/// Trusted: the member holds the strings that the table holds under `key`.
/// Where `value` is no table or has no such member, it holds no string
/// under `key`.
#[verifier::external_body]
pub(crate) fn table_entry<'a>(value: &'a toml::Value, key: &str) -> (r: Option<&'a toml::Value>)
    ensures
        match r {
            Some(entry) => toml_strings(*entry) == strings_under(toml_strings(*value), key@),
            None => strings_under(toml_strings(*value), key@) == Map::<
                Seq<Seq<char>>,
                Seq<char>,
            >::empty(),
        },
{
    value.as_table()?.get(key)
}

/// The text of a string value: `toml::Value::as_str`.
///
/// Trusted: a string holds itself under the empty path, and a value of
/// another type holds nothing there.
#[verifier::external_body]
pub(crate) fn string_of<'a>(value: &'a toml::Value) -> (r: Option<&'a str>)
    ensures
        match r {
            Some(text) => toml_strings(*value).contains_key(Seq::<Seq<char>>::empty())
                && toml_strings(*value)[Seq::<Seq<char>>::empty()] == text@,
            None => !toml_strings(*value).contains_key(Seq::<Seq<char>>::empty()),
        },
{
    value.as_str()
}

/// Looks up the string that `document` holds for `key` in its table `table`.
pub fn lookup_string(document: &toml::Value, table: &str, key: &str) -> (r: Option<String>)
    ensures
        match r {
            Some(text) => string_at(toml_strings(*document), table@, key@) == Some(text@),
            None => string_at(toml_strings(*document), table@, key@) is None,
        },
{
    let ghost strings = toml_strings(*document);
    let ghost path = seq![table@, key@];
    let ghost empty = Seq::<Seq<char>>::empty();
    assert(seq![table@] + seq![key@] =~= path);
    assert(seq![key@] + empty =~= seq![key@]);
    match table_entry(document, table) {
        None => {
            assert(!strings_under(strings, table@).contains_key(seq![key@]));
            None
        },
        Some(members) => {
            assert(toml_strings(*members).contains_key(seq![key@]) == strings.contains_key(path));
            match table_entry(members, key) {
                None => {
                    assert(!strings_under(toml_strings(*members), key@).contains_key(empty));
                    None
                },
                Some(entry) => {
                    assert(toml_strings(*entry).contains_key(empty) == toml_strings(
                        *members,
                    ).contains_key(seq![key@]));
                    match string_of(entry) {
                        None => None,
                        Some(text) => Some(text.to_owned()),
                    }
                },
            }
        },
    }
}

} // verus!
