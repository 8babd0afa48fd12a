use vstd::prelude::*;

use crate::error::DownloadError;

verus! {

/// One version as an upstream manifest lists it: its identifier and, when the
/// manifest gives one, the location of the metadata or artifact it resolves to.
#[derive(Debug, Clone)]
pub struct VersionEntry {
    pub id: String,
    pub url: Option<String>,
}

/// The view of an optional string.
pub open spec fn opt_view(o: Option<String>) -> Option<Seq<char>> {
    match o {
        Some(s) => Some(s@),
        None => None,
    }
}

/// An entry as plain values: its identifier and its location.
pub open spec fn entry_view(e: VersionEntry) -> (Seq<char>, Option<Seq<char>>) {
    (e.id@, opt_view(e.url))
}

/// The entries of a manifest as plain values.
pub open spec fn entries_view(es: Seq<VersionEntry>) -> Seq<(Seq<char>, Option<Seq<char>>)> {
    es.map_values(|e: VersionEntry| entry_view(e))
}

/// The identifiers of a manifest's entries, in the manifest's order.
pub open spec fn catalog_spec(es: Seq<VersionEntry>) -> Seq<Seq<char>> {
    es.map_values(|e: VersionEntry| e.id@)
}

/// `i` is the first entry of the manifest that carries identifier `v`.
pub open spec fn is_first_match(es: Seq<VersionEntry>, v: Seq<char>, i: int) -> bool {
    &&& 0 <= i < es.len()
    &&& es[i].id@ == v
    &&& forall|j: int| 0 <= j < i ==> es[j].id@ != v
}

/// Some entry of the manifest carries identifier `v`.
pub open spec fn is_listed(es: Seq<VersionEntry>, v: Seq<char>) -> bool {
    exists|i: int| 0 <= i < es.len() && es[i].id@ == v
}

/// Every entry of the manifest carries a location.
pub open spec fn all_located(es: Seq<VersionEntry>) -> bool {
    forall|i: int| 0 <= i < es.len() ==> es[i].url is Some
}

/// The reason given when the entry for `v` carries no location.
pub open spec fn missing_url_reason(v: Seq<char>) -> Seq<char> {
    "no artifact URL for version "@ + v
}

/// What resolving `v` against the manifest `es` yields: the location of the
/// first entry for `v`; `VersionNotFound` naming `v` when no entry carries it;
/// `InvalidMetadata` when the first entry for `v` has no location.
pub open spec fn resolves_to(es: Seq<VersionEntry>, v: Seq<char>, r: Result<String, DownloadError>) -> bool {
    match r {
        Ok(u) => exists|i: int| #[trigger] is_first_match(es, v, i) && es[i].url == Some(u),
        Err(DownloadError::VersionNotFound(s)) => !is_listed(es, v) && s@ == v,
        Err(DownloadError::InvalidMetadata(s)) => {
            &&& exists|i: int| #[trigger] is_first_match(es, v, i) && es[i].url is None
            &&& s@ == missing_url_reason(v)
        },
        Err(_) => false,
    }
}

/// The catalog of a manifest: the identifiers of its entries, in order.
pub fn catalog_of(es: &Vec<VersionEntry>) -> (r: Vec<String>)
    ensures
        r@.map_values(|s: String| s@) == catalog_spec(es@),
{
    let mut r: Vec<String> = Vec::new();
    let mut i: usize = 0;
    while i < es.len()
        invariant
            i <= es@.len(),
            r@.len() == i,
            forall|j: int| 0 <= j < i ==> #[trigger] r@[j]@ == es@[j].id@,
        decreases es@.len() - i,
    {
        r.push(es[i].id.clone());
        i = i + 1;
    }
    assert(r@.map_values(|s: String| s@) =~= catalog_spec(es@));
    r
}

/// Resolves version `v` against the manifest `es` to the location of its entry.
pub fn resolve_entry(es: &Vec<VersionEntry>, v: &str) -> (r: Result<String, DownloadError>)
    ensures
        resolves_to(es@, v@, r),
{
    let mut i: usize = 0;
    while i < es.len()
        invariant
            i <= es@.len(),
            forall|j: int| 0 <= j < i ==> es@[j].id@ != v@,
        decreases es@.len() - i,
    {
        if crate::loader::same_text(es[i].id.as_str(), v) {
            assert(is_first_match(es@, v@, i as int));
            match &es[i].url {
                Some(u) => {
                    return Ok(u.clone());
                },
                None => {
                    let reason = String::from_str("no artifact URL for version ").concat(v);
                    return Err(DownloadError::InvalidMetadata(reason));
                },
            }
        }
        i = i + 1;
    }
    Err(DownloadError::VersionNotFound(String::from_str(v)))
}

/// Every version that a catalog lists resolves to a location, when each entry
/// of the manifest carries one.
pub proof fn lemma_listed_versions_resolve(es: Seq<VersionEntry>, v: Seq<char>, r: Result<String, DownloadError>)
    requires
        all_located(es),
        catalog_spec(es).contains(v),
        resolves_to(es, v, r),
    ensures
        r is Ok,
{
    let k = choose|k: int| 0 <= k < catalog_spec(es).len() && catalog_spec(es)[k] == v;
    assert(is_listed(es, v)) by {
        assert(es[k].id@ == v);
    }
    match r {
        Ok(_) => {},
        Err(DownloadError::InvalidMetadata(_)) => {
            let i = choose|i: int| #[trigger] is_first_match(es, v, i) && es[i].url is None;
            assert(es[i].url is Some);
        },
        Err(_) => {},
    }
}

/// A version absent from the catalog resolves to `VersionNotFound` naming it.
pub proof fn lemma_unlisted_version_not_found(es: Seq<VersionEntry>, v: Seq<char>, r: Result<String, DownloadError>)
    requires
        !catalog_spec(es).contains(v),
        resolves_to(es, v, r),
    ensures
        r matches Err(DownloadError::VersionNotFound(s)) && s@ == v,
{
    match r {
        Ok(_) => {
            let i = choose|i: int| #[trigger] is_first_match(es, v, i) && es[i].url == Some(r->Ok_0);
            assert(catalog_spec(es)[i] == v);
        },
        Err(DownloadError::InvalidMetadata(_)) => {
            let i = choose|i: int| #[trigger] is_first_match(es, v, i) && es[i].url is None;
            assert(catalog_spec(es)[i] == v);
        },
        Err(_) => {},
    }
}

} // verus!
