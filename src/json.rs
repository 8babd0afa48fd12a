use vstd::prelude::*;

use crate::error::DownloadError;
use crate::loader::same_text;
use crate::manifest::{entries_view, opt_view, VersionEntry};

verus! {

#[verifier::external_type_specification]
#[verifier::external_body]
pub struct ExJsonValue(serde_json::Value);

#[verifier::external_type_specification]
#[verifier::external_body]
pub struct ExJsonError(serde_json::Error);

/// A JSON document as plain values. Numbers keep their written form; an
/// object keeps its members in the order the parser yields them.
#[derive(Debug)]
pub enum Json {
    Null,
    Bool(bool),
    Number(String),
    Str(String),
    Array(Vec<Json>),
    Object(Vec<(String, Json)>),
}

/// The document that a text parses to, if it is one JSON document.
pub uninterp spec fn json_of(text: Seq<char>) -> Option<Json>;

/// Relies on serde_json's `Value` variants: each value becomes the same
/// variant of `Json`, numbers through their Display impl.
#[verifier::external_body]
fn from_value(v: serde_json::Value) -> (r: Json) {
    match v {
        serde_json::Value::Null => Json::Null,
        serde_json::Value::Bool(b) => Json::Bool(b),
        serde_json::Value::Number(n) => Json::Number(n.to_string()),
        serde_json::Value::String(s) => Json::Str(s),
        serde_json::Value::Array(a) => Json::Array(a.into_iter().map(from_value).collect()),
        serde_json::Value::Object(m) => {
            Json::Object(m.into_iter().map(|(k, x)| (k, from_value(x))).collect())
        },
    }
}

/// Relies on serde_json::from_str: parses a whole text as one JSON document;
/// the outcome depends on the text alone.
#[verifier::external_body]
fn parse_document(text: &str) -> (r: Result<Json, serde_json::Error>)
    ensures
        r is Ok <==> json_of(text@) is Some,
        r matches Ok(j) ==> json_of(text@) == Some(j),
{
    serde_json::from_str::<serde_json::Value>(text).map(from_value)
}

/// Relies on serde_json::Error's Display impl: the parser's description of the failure.
#[verifier::external_body]
fn describe(e: &serde_json::Error) -> (r: String) {
    e.to_string()
}

/// `i` is the first member of an object whose name is `key`.
pub open spec fn is_first_key(fields: Seq<(String, Json)>, key: Seq<char>, i: int) -> bool {
    &&& 0 <= i < fields.len()
    &&& fields[i].0@ == key
    &&& forall|j: int| 0 <= j < i ==> fields[j].0@ != key
}

/// The member of an object named `key`; nothing for another kind of value.
pub open spec fn member_spec(j: Json, key: Seq<char>) -> Option<Json> {
    match j {
        Json::Object(fields) => if exists|i: int| is_first_key(fields@, key, i) {
            Some(fields@[choose|i: int| is_first_key(fields@, key, i)].1)
        } else {
            None
        },
        _ => None,
    }
}

/// The contents of a string value.
pub open spec fn str_of(j: Json) -> Option<Seq<char>> {
    match j {
        Json::Str(s) => Some(s@),
        _ => None,
    }
}

/// The elements of an array value.
pub open spec fn array_of(j: Json) -> Option<Seq<Json>> {
    match j {
        Json::Array(a) => Some(a@),
        _ => None,
    }
}

/// The string stored as member `key` of an object.
pub open spec fn member_str(j: Json, key: Seq<char>) -> Option<Seq<char>> {
    match member_spec(j, key) {
        Some(m) => str_of(m),
        None => None,
    }
}

/// The array stored as member `versions` of a manifest.
pub open spec fn versions_spec(doc: Json) -> Option<Seq<Json>> {
    match member_spec(doc, "versions"@) {
        Some(v) => array_of(v),
        None => None,
    }
}

/// The entries of an index manifest: one per element of `versions`, each with
/// its string `id` and, where given, its string `url`; nothing when
/// `versions` is missing or an element has no string `id`.
pub open spec fn index_entries_spec(doc: Json) -> Option<Seq<(Seq<char>, Option<Seq<char>>)>> {
    match versions_spec(doc) {
        Some(items) => if forall|i: int| 0 <= i < items.len() ==> (#[trigger] member_str(items[i], "id"@)) is Some {
            Some(Seq::new(items.len(), |i: int| (member_str(items[i], "id"@)->Some_0, member_str(items[i], "url"@))))
        } else {
            None
        },
        None => None,
    }
}

/// The identifiers of a flat manifest: the strings of `versions`; nothing when
/// `versions` is missing or holds something other than strings.
pub open spec fn flat_ids_spec(doc: Json) -> Option<Seq<Seq<char>>> {
    match versions_spec(doc) {
        Some(items) => if forall|i: int| 0 <= i < items.len() ==> (#[trigger] str_of(items[i])) is Some {
            Some(Seq::new(items.len(), |i: int| str_of(items[i])->Some_0))
        } else {
            None
        },
        None => None,
    }
}

/// The location of the server download of a per-version metadata document,
/// `downloads.server.url`.
pub open spec fn server_url_spec(doc: Json) -> Option<Seq<char>> {
    match member_spec(doc, "downloads"@) {
        Some(d) => match member_spec(d, "server"@) {
            Some(s) => member_str(s, "url"@),
            None => None,
        },
        None => None,
    }
}

/// Parses `text`, reporting a syntax error as a `Json` error.
pub fn read_document(text: &str) -> (r: Result<Json, DownloadError>)
    ensures
        match json_of(text@) {
            Some(j) => r == Ok::<Json, DownloadError>(j),
            None => r matches Err(e) && e is Json,
        },
{
    match parse_document(text) {
        Ok(v) => Ok(v),
        Err(e) => Err(DownloadError::Json(describe(&e))),
    }
}

/// The member of object `j` named `key`.
pub fn member<'a>(j: &'a Json, key: &str) -> (r: Option<&'a Json>)
    ensures
        match r {
            Some(m) => member_spec(*j, key@) == Some(*m),
            None => member_spec(*j, key@) is None,
        },
{
    match j {
        Json::Object(fields) => {
            let mut i: usize = 0;
            while i < fields.len()
                invariant
                    *j == Json::Object(*fields),
                    i <= fields@.len(),
                    forall|k: int| 0 <= k < i ==> fields@[k].0@ != key@,
                decreases fields@.len() - i,
            {
                if same_text(fields[i].0.as_str(), key) {
                    proof {
                        assert(is_first_key(fields@, key@, i as int));
                        let c = choose|c: int| is_first_key(fields@, key@, c);
                        if c > i {
                            assert(fields@[i as int].0@ == key@);
                        } else if c < i {
                            assert(fields@[c].0@ != key@);
                        }
                        assert(c == i);
                        assert(member_spec(*j, key@) == Some(fields@[i as int].1));
                    }
                    return Some(&fields[i].1);
                }
                i = i + 1;
            }
            None
        },
        _ => None,
    }
}

/// The string stored as member `key` of object `v`, if there is one.
pub fn string_member(v: &Json, key: &str) -> (r: Option<String>)
    ensures
        opt_view(r) == member_str(*v, key@),
{
    match member(v, key) {
        Some(Json::Str(s)) => Some(s.clone()),
        _ => None,
    }
}

/// The array stored as member `versions` of a manifest.
fn versions_member(doc: &Json) -> (r: Result<&Vec<Json>, DownloadError>)
    ensures
        match versions_spec(*doc) {
            Some(items) => r matches Ok(a) && a@ == items,
            None => r matches Err(e) && e is Json,
        },
{
    match member(doc, "versions") {
        Some(Json::Array(a)) => Ok(a),
        _ => Err(DownloadError::Json(String::from_str("no versions array"))),
    }
}

/// Reads an index manifest into its entries.
pub fn index_entries(doc: &Json) -> (r: Result<Vec<VersionEntry>, DownloadError>)
    ensures
        match index_entries_spec(*doc) {
            Some(v) => r matches Ok(es) && entries_view(es@) == v,
            None => r matches Err(e) && e is Json,
        },
{
    let items = match versions_member(doc) {
        Ok(a) => a,
        Err(e) => return Err(e),
    };
    let mut es: Vec<VersionEntry> = Vec::new();
    let mut i: usize = 0;
    while i < items.len()
        invariant
            i <= items@.len(),
            es@.len() == i,
            versions_spec(*doc) == Some(items@),
            forall|k: int| 0 <= k < i ==> (#[trigger] member_str(items@[k], "id"@)) is Some,
            forall|k: int| 0 <= k < i ==> (#[trigger] es@[k]).id@ == member_str(items@[k], "id"@)->Some_0,
            forall|k: int| 0 <= k < i ==> opt_view((#[trigger] es@[k]).url) == member_str(items@[k], "url"@),
        decreases items@.len() - i,
    {
        let id = match string_member(&items[i], "id") {
            Some(s) => s,
            None => {
                assert(member_str(items@[i as int], "id"@) is None);
                return Err(DownloadError::Json(String::from_str("version entry without an id")));
            },
        };
        let url = string_member(&items[i], "url");
        es.push(VersionEntry { id, url });
        i = i + 1;
    }
    assert(entries_view(es@) =~= index_entries_spec(*doc)->Some_0);
    Ok(es)
}

/// Reads a flat manifest into its version identifiers.
pub fn flat_ids(doc: &Json) -> (r: Result<Vec<String>, DownloadError>)
    ensures
        match flat_ids_spec(*doc) {
            Some(v) => r matches Ok(ids) && ids@.map_values(|s: String| s@) == v,
            None => r matches Err(e) && e is Json,
        },
{
    let items = match versions_member(doc) {
        Ok(a) => a,
        Err(e) => return Err(e),
    };
    let mut ids: Vec<String> = Vec::new();
    let mut i: usize = 0;
    while i < items.len()
        invariant
            i <= items@.len(),
            ids@.len() == i,
            versions_spec(*doc) == Some(items@),
            forall|k: int| 0 <= k < i ==> (#[trigger] str_of(items@[k])) is Some,
            forall|k: int| 0 <= k < i ==> (#[trigger] ids@[k])@ == str_of(items@[k])->Some_0,
        decreases items@.len() - i,
    {
        match &items[i] {
            Json::Str(s) => ids.push(s.clone()),
            _ => {
                assert(str_of(items@[i as int]) is None);
                return Err(DownloadError::Json(String::from_str("version identifier is not a string")));
            },
        }
        i = i + 1;
    }
    assert(ids@.map_values(|s: String| s@) =~= flat_ids_spec(*doc)->Some_0);
    Ok(ids)
}

/// The location of the server download of a per-version metadata document.
pub fn server_download(doc: &Json) -> (r: Result<String, DownloadError>)
    ensures
        match server_url_spec(*doc) {
            Some(u) => r matches Ok(x) && x@ == u,
            None => r matches Err(e) && e is InvalidMetadata,
        },
{
    let server = match member(doc, "downloads") {
        Some(d) => member(d, "server"),
        None => None,
    };
    match server {
        Some(s) => match string_member(s, "url") {
            Some(u) => Ok(u),
            None => Err(DownloadError::InvalidMetadata(String::from_str("server download without a URL"))),
        },
        None => Err(DownloadError::InvalidMetadata(String::from_str("no server download listed"))),
    }
}

} // verus!
