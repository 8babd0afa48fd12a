use vstd::prelude::*;

use crate::error::DownloadError;
use crate::json::{
    flat_ids, flat_ids_spec, index_entries, index_entries_spec, json_of, read_document,
    server_download, server_url_spec,
};
use crate::loader::{loader_of_name, LoaderKind};
use crate::manifest::{all_located, catalog_of, catalog_spec, entries_view, VersionEntry};

verus! {

/// Where the artifacts of NeoForge releases are published.
pub open spec fn neoforge_repository_spec() -> Seq<char> {
    "https://maven.neoforged.net/releases/net/neoforged/neoforge/"@
}

/// The file name of the installer published for NeoForge version `v`.
pub open spec fn installer_file_spec(v: Seq<char>) -> Seq<char> {
    "neoforge-"@ + v + "-installer.jar"@
}

/// The location of the installer published for NeoForge version `v`.
pub open spec fn installer_url_spec(v: Seq<char>) -> Seq<char> {
    neoforge_repository_spec() + v + "/"@ + installer_file_spec(v)
}

/// The file name under which the vanilla server is saved.
pub open spec fn server_file_spec() -> Seq<char> {
    "server.jar"@
}

/// The address of the manifest that lists a loader's versions.
pub open spec fn manifest_url_spec(k: LoaderKind) -> Seq<char> {
    match k {
        LoaderKind::Vanilla => "https://piston-meta.mojang.com/mc/game/version_manifest_v2.json"@,
        LoaderKind::NeoForge => "https://maven.neoforged.net/api/maven/versions/releases/net/neoforged/neoforge"@,
    }
}

/// The address of the manifest that lists the versions of loader `k`.
pub fn manifest_url(k: LoaderKind) -> (r: &'static str)
    ensures
        r@ == manifest_url_spec(k),
{
    match k {
        LoaderKind::Vanilla => "https://piston-meta.mojang.com/mc/game/version_manifest_v2.json",
        LoaderKind::NeoForge => "https://maven.neoforged.net/api/maven/versions/releases/net/neoforged/neoforge",
    }
}

/// The file name of the installer of NeoForge version `v`.
pub fn installer_file(v: &str) -> (r: String)
    ensures
        r@ == installer_file_spec(v@),
{
    String::from_str("neoforge-").concat(v).concat("-installer.jar")
}

/// The location of the installer of NeoForge version `v`.
pub fn installer_url(v: &str) -> (r: String)
    ensures
        r@ == installer_url_spec(v@),
{
    let file = installer_file(v);
    let r = String::from_str("https://maven.neoforged.net/releases/net/neoforged/neoforge/")
        .concat(v)
        .concat("/")
        .concat(file.as_str());
    assert(r@ =~= installer_url_spec(v@));
    r
}

/// Entries for a flat list of NeoForge versions, each located at its installer.
pub fn neoforge_entries(ids: &Vec<String>) -> (r: Vec<VersionEntry>)
    ensures
        r@.len() == ids@.len(),
        forall|i: int| 0 <= i < ids@.len() ==> {
            &&& (#[trigger] r@[i]).id@ == ids@[i]@
            &&& r@[i].url matches Some(u) && u@ == installer_url_spec(ids@[i]@)
        },
{
    let mut r: Vec<VersionEntry> = Vec::new();
    let mut i: usize = 0;
    while i < ids.len()
        invariant
            i <= ids@.len(),
            r@.len() == i,
            forall|j: int| 0 <= j < i ==> {
                &&& (#[trigger] r@[j]).id@ == ids@[j]@
                &&& r@[j].url matches Some(u) && u@ == installer_url_spec(ids@[j]@)
            },
        decreases ids@.len() - i,
    {
        let id = ids[i].clone();
        let url = installer_url(id.as_str());
        r.push(VersionEntry { id, url: Some(url) });
        i = i + 1;
    }
    r
}

/// The entries of a NeoForge manifest listing `ids`, each located at its installer.
pub open spec fn neoforge_view(ids: Seq<Seq<char>>) -> Seq<(Seq<char>, Option<Seq<char>>)> {
    Seq::new(ids.len(), |i: int| (ids[i], Some(installer_url_spec(ids[i]))))
}

/// The entries that the manifest text of loader `k` lists, as plain values;
/// nothing when the text is no JSON document or not of the loader's shape.
pub open spec fn manifest_spec(k: LoaderKind, text: Seq<char>) -> Option<Seq<(Seq<char>, Option<Seq<char>>)>> {
    match json_of(text) {
        None => None,
        Some(doc) => match k {
            LoaderKind::Vanilla => index_entries_spec(doc),
            LoaderKind::NeoForge => match flat_ids_spec(doc) {
                Some(ids) => Some(neoforge_view(ids)),
                None => None,
            },
        },
    }
}

/// The catalog of loader `k` according to its manifest text: the identifiers
/// of its entries in order, or nothing when the text cannot be read.
pub open spec fn listing_spec(k: LoaderKind, text: Seq<char>) -> Seq<Seq<char>> {
    match manifest_spec(k, text) {
        Some(v) => v.map_values(|p: (Seq<char>, Option<Seq<char>>)| p.0),
        None => Seq::empty(),
    }
}

/// The catalog offered under a loader name; nothing for an unknown name.
pub open spec fn loader_listing_spec(loader: Seq<char>, text: Seq<char>) -> Seq<Seq<char>> {
    match loader_of_name(loader) {
        Some(k) => listing_spec(k, text),
        None => Seq::empty(),
    }
}

/// Reads the manifest text of loader `k` into its version entries.
pub fn parse_manifest(k: LoaderKind, text: &str) -> (r: Result<Vec<VersionEntry>, DownloadError>)
    ensures
        match manifest_spec(k, text@) {
            Some(v) => r matches Ok(es) && entries_view(es@) == v,
            None => r matches Err(e) && e is Json,
        },
        k == LoaderKind::NeoForge ==> (r matches Ok(es) ==> all_located(es@)),
{
    let doc = match read_document(text) {
        Ok(d) => d,
        Err(e) => return Err(e),
    };
    match k {
        LoaderKind::Vanilla => index_entries(&doc),
        LoaderKind::NeoForge => match flat_ids(&doc) {
            Ok(ids) => {
                let es = neoforge_entries(&ids);
                assert forall|i: int| 0 <= i < es@.len() implies es@[i].url is Some by {
                    assert(es@[i].url matches Some(u) && u@ == installer_url_spec(ids@[i]@));
                }
                assert(entries_view(es@) =~= neoforge_view(ids@.map_values(|s: String| s@)));
                Ok(es)
            },
            Err(e) => Err(e),
        },
    }
}

/// Reads a per-version metadata document into the location of its server
/// download. Text that is no JSON document is a `Json` error; a document
/// without `downloads.server.url` is `InvalidMetadata`.
pub fn parse_detail(text: &str) -> (r: Result<String, DownloadError>)
    ensures
        match json_of(text@) {
            None => r matches Err(e) && e is Json,
            Some(doc) => match server_url_spec(doc) {
                Some(u) => r matches Ok(x) && x@ == u,
                None => r matches Err(e) && e is InvalidMetadata,
            },
        },
{
    match read_document(text) {
        Ok(doc) => server_download(&doc),
        Err(e) => Err(e),
    }
}

/// The catalog that a listing request yields: the identifiers of the parsed
/// manifest, or nothing when the manifest could not be had or read.
pub fn versions_of(parsed: &Result<Vec<VersionEntry>, DownloadError>) -> (r: Vec<String>)
    ensures
        parsed matches Ok(es) ==> r@.map_values(|s: String| s@) == catalog_spec(es@),
        parsed is Err ==> r@.len() == 0,
{
    match parsed {
        Ok(es) => catalog_of(es),
        Err(_) => Vec::new(),
    }
}

/// The catalog of loader `k` according to its manifest text.
fn listing(k: LoaderKind, manifest: &str) -> (r: Vec<String>)
    ensures
        r@.map_values(|s: String| s@) == listing_spec(k, manifest@),
{
    let parsed = parse_manifest(k, manifest);
    let r = versions_of(&parsed);
    match &parsed {
        Ok(es) => {
            assert(catalog_spec(es@) =~= entries_view(es@).map_values(|p: (Seq<char>, Option<Seq<char>>)| p.0));
        },
        Err(_) => {
            assert(r@.map_values(|s: String| s@) =~= Seq::<Seq<char>>::empty());
        },
    }
    r
}

/// The versions that loader `loader` offers according to its manifest text,
/// in the manifest's order. An unknown loader name, or a manifest that cannot
/// be read, yields an empty catalog, not an error.
pub fn get_loader_versions(loader: &str, manifest: &str) -> (r: Vec<String>)
    ensures
        r@.map_values(|s: String| s@) == loader_listing_spec(loader@, manifest@),
{
    match LoaderKind::from_name(loader) {
        Some(LoaderKind::Vanilla) => Vanilla::get_versions(manifest),
        Some(LoaderKind::NeoForge) => Neoforge::get_versions(manifest),
        None => {
            let r: Vec<String> = Vec::new();
            assert(r@.map_values(|s: String| s@) =~= Seq::<Seq<char>>::empty());
            r
        },
    }
}

/// A distribution: which loader it is and the catalog its manifest lists.
pub trait Loader {
    /// The distribution this loader provisions.
    spec fn kind_spec() -> LoaderKind;

    /// The distribution this loader provisions.
    fn kind(&self) -> (r: LoaderKind)
        ensures
            r == Self::kind_spec(),
    ;

    /// The catalog that the manifest text lists; empty when it cannot be read.
    fn get_versions(manifest: &str) -> (r: Vec<String>)
        ensures
            r@.map_values(|s: String| s@) == listing_spec(Self::kind_spec(), manifest@),
    ;
}

/// The unmodified server distribution.
pub struct Vanilla;

/// The NeoForge mod-loader distribution.
pub struct Neoforge;

impl Loader for Vanilla {
    open spec fn kind_spec() -> LoaderKind {
        LoaderKind::Vanilla
    }

    fn kind(&self) -> (r: LoaderKind) {
        LoaderKind::Vanilla
    }

    fn get_versions(manifest: &str) -> (r: Vec<String>) {
        listing(LoaderKind::Vanilla, manifest)
    }
}

impl Loader for Neoforge {
    open spec fn kind_spec() -> LoaderKind {
        LoaderKind::NeoForge
    }

    fn kind(&self) -> (r: LoaderKind) {
        LoaderKind::NeoForge
    }

    fn get_versions(manifest: &str) -> (r: Vec<String>) {
        listing(LoaderKind::NeoForge, manifest)
    }
}

/// A manifest that reads as at least one entry gives a non-empty catalog,
/// one identifier for each entry.
pub proof fn lemma_listing_nonempty(k: LoaderKind, text: Seq<char>)
    requires
        manifest_spec(k, text) matches Some(v) && v.len() > 0,
    ensures
        listing_spec(k, text).len() == manifest_spec(k, text)->Some_0.len(),
        listing_spec(k, text).len() > 0,
{
}

} // verus!
