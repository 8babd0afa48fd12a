use vstd::prelude::*;

use crate::loader::same_text;
use crate::manifest::opt_view;

verus! {

#[verifier::external_type_specification]
#[verifier::external_body]
pub struct ExTomlValue(toml::Value);

/// The configuration file written for a new server directory.
pub open spec fn config_text_spec(name: Seq<char>, version: Seq<char>, loader: Seq<char>) -> Seq<char> {
    "[server]\nname = \""@ + name + "\"\nversion = \""@ + version + "\"\nloader = \""@ + loader + "\"\n"@
}

/// The text of the configuration that records a server's name, version and loader.
pub fn config_text(name: &str, version: &str, loader: &str) -> (r: String)
    ensures
        r@ == config_text_spec(name@, version@, loader@),
{
    let r = String::from_str("[server]\nname = \"")
        .concat(name)
        .concat("\"\nversion = \"")
        .concat(version)
        .concat("\"\nloader = \"")
        .concat(loader)
        .concat("\"\n");
    assert(r@ =~= config_text_spec(name@, version@, loader@));
    r
}

/// A TOML value as plain values: its text as TOML writes it and, for a table,
/// its entries in the order the parser yields them.
#[derive(Debug)]
pub struct Toml {
    pub rendered: String,
    pub entries: Vec<(String, Toml)>,
}

/// The document that a text parses to, if it is a TOML document.
pub uninterp spec fn toml_of(text: Seq<char>) -> Option<Toml>;

/// Relies on toml::Value's Display impl for each value's text, and on its
/// `Table` variant for the entries of a table.
#[verifier::external_body]
fn from_toml(v: toml::Value) -> (r: Toml) {
    let rendered = v.to_string();
    match v {
        toml::Value::Table(t) => {
            Toml { rendered, entries: t.into_iter().map(|(k, x)| (k, from_toml(x))).collect() }
        },
        _ => Toml { rendered, entries: Vec::new() },
    }
}

/// Relies on toml::from_str: parses a whole text as one TOML document; the
/// outcome depends on the text alone.
#[verifier::external_body]
fn parse_toml(text: &str) -> (r: Option<Toml>)
    ensures
        r == toml_of(text@),
{
    toml::from_str::<toml::Value>(text).ok().map(from_toml)
}

/// `i` is the first entry of a table whose key is `key`.
pub open spec fn is_first_entry(entries: Seq<(String, Toml)>, key: Seq<char>, i: int) -> bool {
    &&& 0 <= i < entries.len()
    &&& entries[i].0@ == key
    &&& forall|j: int| 0 <= j < i ==> entries[j].0@ != key
}

/// The value stored under `key` in table `t`.
pub open spec fn entry_spec(t: Toml, key: Seq<char>) -> Option<Toml> {
    if exists|i: int| is_first_entry(t.entries@, key, i) {
        Some(t.entries@[choose|i: int| is_first_entry(t.entries@, key, i)].1)
    } else {
        None
    }
}

/// The text of setting `id` of the `[server]` table of a configuration text;
/// nothing when the text is no TOML document or holds no such setting.
pub open spec fn setting_spec(config: Seq<char>, id: Seq<char>) -> Option<Seq<char>> {
    match toml_of(config) {
        Some(doc) => match entry_spec(doc, "server"@) {
            Some(server) => match entry_spec(server, id) {
                Some(v) => Some(v.rendered@),
                None => None,
            },
            None => None,
        },
        None => None,
    }
}

/// The value stored under `key` in table `t`.
fn entry<'a>(t: &'a Toml, key: &str) -> (r: Option<&'a Toml>)
    ensures
        match r {
            Some(m) => entry_spec(*t, key@) == Some(*m),
            None => entry_spec(*t, key@) is None,
        },
{
    let mut i: usize = 0;
    while i < t.entries.len()
        invariant
            i <= t.entries@.len(),
            forall|k: int| 0 <= k < i ==> t.entries@[k].0@ != key@,
        decreases t.entries@.len() - i,
    {
        if same_text(t.entries[i].0.as_str(), key) {
            proof {
                assert(is_first_entry(t.entries@, key@, i as int));
                let c = choose|c: int| is_first_entry(t.entries@, key@, c);
                if c > i {
                    assert(t.entries@[i as int].0@ == key@);
                } else if c < i {
                    assert(t.entries@[c].0@ != key@);
                }
                assert(c == i);
                assert(entry_spec(*t, key@) == Some(t.entries@[i as int].1));
            }
            return Some(&t.entries[i].1);
        }
        i = i + 1;
    }
    None
}

/// The setting `id` of the `[server]` table of a configuration text, written
/// as TOML (a string keeps its quotes); nothing when the text is no TOML
/// document or holds no such setting.
pub fn get_value(config: &str, id: &str) -> (r: Option<String>)
    ensures
        opt_view(r) == setting_spec(config@, id@),
{
    let doc = match parse_toml(config) {
        Some(d) => d,
        None => return None,
    };
    match entry(&doc, "server") {
        Some(server) => match entry(server, id) {
            Some(v) => Some(v.rendered.clone()),
            None => None,
        },
        None => None,
    }
}

} // verus!
