use vstd::prelude::*;

use crate::error::DownloadError;
use crate::loader::{loader_of_name, LoaderKind};
use crate::manifest::{
    all_located, catalog_spec, entries_view, entry_view, is_first_match, lemma_listed_versions_resolve,
    lemma_unlisted_version_not_found, resolve_entry, resolves_to, VersionEntry,
};
use crate::versions::{listing_spec, manifest_spec, installer_file, installer_file_spec, manifest_url, manifest_url_spec, server_file_spec};

verus! {

/// An artifact to be written into the destination directory.
#[derive(Debug, Clone)]
pub struct ArtifactDescriptor {
    /// Where the artifact is fetched from.
    pub url: String,
    /// The name under which it is saved in the destination directory.
    pub file_name: String,
}

/// The next thing the caller must do for a download in progress.
#[derive(Debug)]
pub enum Action {
    /// Fetch the document at this address and hand its text back.
    Fetch(String),
    /// Stream the artifact into the destination directory.
    Save(ArtifactDescriptor),
    /// Run the installer saved under this name inside the destination directory.
    RunInstaller(String),
    /// The download is over, with this outcome.
    Finish(Result<(), DownloadError>),
}

/// Where a download stands.
#[derive(Debug, Clone, Copy, PartialEq, Eq, Structural)]
pub enum Stage {
    /// Waiting for the loader's manifest.
    Manifest,
    /// Waiting for the per-version metadata document.
    Detail,
    /// Waiting for the artifact to be saved.
    Artifact,
    /// Waiting for the installer to finish.
    Install,
    /// Over; nothing more is asked.
    Finished,
}

/// One download of one version of one loader into one destination directory.
#[derive(Debug)]
pub struct DownloadSession {
    pub kind: LoaderKind,
    pub version: String,
    pub destination: String,
    pub stage: Stage,
}

/// The reason given for a loader name that selects no loader.
pub open spec fn invalid_loader_reason(name: Seq<char>) -> Seq<char> {
    "Invalid loader: "@ + name
}

/// What follows the manifest of a download of version `v` of loader `k`: the
/// resolution of `v`'s entry, then the per-version metadata (vanilla) or the
/// installer (NeoForge); or the failure that stops it.
pub open spec fn manifest_step(
    k: LoaderKind,
    v: Seq<char>,
    parsed: Result<Vec<VersionEntry>, DownloadError>,
    a: Action,
    next: Stage,
) -> bool {
    match parsed {
        Err(e) => a == Action::Finish(Err(e)) && next == Stage::Finished,
        Ok(es) => match a {
            Action::Finish(Err(e)) => resolves_to(es@, v, Err(e)) && next == Stage::Finished,
            Action::Fetch(u) => {
                &&& k == LoaderKind::Vanilla
                &&& resolves_to(es@, v, Ok(u))
                &&& next == Stage::Detail
            },
            Action::Save(d) => {
                &&& k == LoaderKind::NeoForge
                &&& resolves_to(es@, v, Ok(d.url))
                &&& d.file_name@ == installer_file_spec(v)
                &&& next == Stage::Artifact
            },
            _ => false,
        },
    }
}

/// Starts downloading version `version` of the loader named `loader` into
/// `path`: the first action fetches that loader's manifest. A name that selects
/// no loader is refused with `InvalidMetadata` naming it.
pub fn download_version(version: &str, path: &str, loader: &str) -> (r: Result<(DownloadSession, Action), DownloadError>)
    ensures
        loader_of_name(loader@) is None <==> r is Err,
        r matches Err(e) ==> e matches DownloadError::InvalidMetadata(s) && s@ == invalid_loader_reason(loader@),
        r matches Ok((s, a)) ==> {
            &&& loader_of_name(loader@) == Some(s.kind)
            &&& s.version@ == version@
            &&& s.destination@ == path@
            &&& s.stage == Stage::Manifest
            &&& a matches Action::Fetch(u) && u@ == manifest_url_spec(s.kind)
        },
{
    match LoaderKind::from_name(loader) {
        Some(kind) => {
            let session = DownloadSession {
                kind,
                version: String::from_str(version),
                destination: String::from_str(path),
                stage: Stage::Manifest,
            };
            Ok((session, Action::Fetch(String::from_str(manifest_url(kind)))))
        },
        None => Err(DownloadError::InvalidMetadata(String::from_str("Invalid loader: ").concat(loader))),
    }
}

impl DownloadSession {
    /// Takes the loader's manifest, read into entries, or the failure to get
    /// or read it; resolves the session's version against it.
    pub fn on_manifest(&mut self, parsed: Result<Vec<VersionEntry>, DownloadError>) -> (a: Action)
        requires
            old(self).stage == Stage::Manifest,
        ensures
            final(self).kind == old(self).kind,
            final(self).version == old(self).version,
            final(self).destination == old(self).destination,
            manifest_step(old(self).kind, old(self).version@, parsed, a, final(self).stage),
    {
        let es = match parsed {
            Ok(es) => es,
            Err(e) => {
                self.stage = Stage::Finished;
                return Action::Finish(Err(e));
            },
        };
        match resolve_entry(&es, self.version.as_str()) {
            Err(e) => {
                self.stage = Stage::Finished;
                Action::Finish(Err(e))
            },
            Ok(u) => match self.kind {
                LoaderKind::Vanilla => {
                    self.stage = Stage::Detail;
                    Action::Fetch(u)
                },
                LoaderKind::NeoForge => {
                    self.stage = Stage::Artifact;
                    Action::Save(ArtifactDescriptor { url: u, file_name: installer_file(self.version.as_str()) })
                },
            },
        }
    }

    /// Takes the location of the server download read from the per-version
    /// metadata, or the failure to get or read it.
    pub fn on_detail(&mut self, located: Result<String, DownloadError>) -> (a: Action)
        requires
            old(self).stage == Stage::Detail,
        ensures
            final(self).kind == old(self).kind,
            final(self).version == old(self).version,
            final(self).destination == old(self).destination,
            match located {
                Ok(u) => {
                    &&& a matches Action::Save(d) && d.url == u && d.file_name@ == server_file_spec()
                    &&& final(self).stage == Stage::Artifact
                },
                Err(e) => a == Action::Finish(Err(e)) && final(self).stage == Stage::Finished,
            },
    {
        match located {
            Ok(u) => {
                self.stage = Stage::Artifact;
                Action::Save(ArtifactDescriptor { url: u, file_name: String::from_str("server.jar") })
            },
            Err(e) => {
                self.stage = Stage::Finished;
                Action::Finish(Err(e))
            },
        }
    }

    /// Takes the outcome of saving the artifact. A NeoForge installer must then
    /// be run; a vanilla server is complete.
    pub fn on_saved(&mut self, outcome: Result<(), DownloadError>) -> (a: Action)
        requires
            old(self).stage == Stage::Artifact,
        ensures
            final(self).kind == old(self).kind,
            final(self).version == old(self).version,
            final(self).destination == old(self).destination,
            match outcome {
                Err(e) => a == Action::Finish(Err(e)) && final(self).stage == Stage::Finished,
                Ok(()) => match old(self).kind {
                    LoaderKind::Vanilla => a == Action::Finish(Ok(())) && final(self).stage == Stage::Finished,
                    LoaderKind::NeoForge => {
                        &&& a matches Action::RunInstaller(f) && f@ == installer_file_spec(old(self).version@)
                        &&& final(self).stage == Stage::Install
                    },
                },
            },
    {
        match outcome {
            Err(e) => {
                self.stage = Stage::Finished;
                Action::Finish(Err(e))
            },
            Ok(()) => match self.kind {
                LoaderKind::Vanilla => {
                    self.stage = Stage::Finished;
                    Action::Finish(Ok(()))
                },
                LoaderKind::NeoForge => {
                    self.stage = Stage::Install;
                    Action::RunInstaller(installer_file(self.version.as_str()))
                },
            },
        }
    }

    /// Takes the outcome of running the installer, which ends the download.
    pub fn on_installed(&mut self, outcome: Result<(), DownloadError>) -> (a: Action)
        requires
            old(self).stage == Stage::Install,
        ensures
            final(self).kind == old(self).kind,
            final(self).version == old(self).version,
            final(self).destination == old(self).destination,
            a == Action::Finish(outcome),
            final(self).stage == Stage::Finished,
    {
        self.stage = Stage::Finished;
        Action::Finish(outcome)
    }
}

/// A version that the manifest does not list ends the download with
/// `VersionNotFound` naming it, before anything is fetched or saved for it.
pub proof fn lemma_unlisted_version_saves_nothing(
    k: LoaderKind,
    v: Seq<char>,
    es: Vec<VersionEntry>,
    a: Action,
    next: Stage,
)
    requires
        !catalog_spec(es@).contains(v),
        manifest_step(k, v, Ok(es), a, next),
    ensures
        a matches Action::Finish(Err(DownloadError::VersionNotFound(s))) && s@ == v,
        next == Stage::Finished,
{
    match a {
        Action::Finish(Err(e)) => {
            lemma_unlisted_version_not_found(es@, v, Err(e));
        },
        Action::Fetch(u) => {
            lemma_unlisted_version_not_found(es@, v, Ok(u));
        },
        Action::Save(d) => {
            lemma_unlisted_version_not_found(es@, v, Ok(d.url));
        },
        _ => {},
    }
}

/// An entry without a location ends the download with `InvalidMetadata`,
/// before anything is fetched or saved for it.
pub proof fn lemma_unlocated_entry_is_invalid_metadata(
    k: LoaderKind,
    v: Seq<char>,
    es: Vec<VersionEntry>,
    i: int,
    a: Action,
    next: Stage,
)
    requires
        is_first_match(es@, v, i),
        es@[i].url is None,
        manifest_step(k, v, Ok(es), a, next),
    ensures
        a matches Action::Finish(Err(DownloadError::InvalidMetadata(_))),
        next == Stage::Finished,
{
    let es_s = es@;
    assert forall|j: int| #[trigger] is_first_match(es_s, v, j) implies j == i by {
        if j < i {
            assert(es_s[j].id@ != v);
        } else if j > i {
            assert(es_s[i].id@ != v);
        }
    }
}

/// When every entry of the manifest is located, each version that its catalog
/// lists goes on to a fetch of its metadata or a save of its installer.
pub proof fn lemma_listed_version_proceeds(
    k: LoaderKind,
    v: Seq<char>,
    es: Vec<VersionEntry>,
    a: Action,
    next: Stage,
)
    requires
        all_located(es@),
        catalog_spec(es@).contains(v),
        manifest_step(k, v, Ok(es), a, next),
    ensures
        a is Fetch || a is Save,
        next != Stage::Finished,
{
    match a {
        Action::Finish(Err(e)) => {
            lemma_listed_versions_resolve(es@, v, Err(e));
        },
        _ => {},
    }
}

/// Every version in the catalog of a readable NeoForge manifest goes on to a
/// save of its installer when that manifest is handed to the download.
pub proof fn lemma_listed_neoforge_version_proceeds(
    text: Seq<char>,
    v: Seq<char>,
    es: Vec<VersionEntry>,
    a: Action,
    next: Stage,
)
    requires
        manifest_spec(LoaderKind::NeoForge, text) == Some(entries_view(es@)),
        listing_spec(LoaderKind::NeoForge, text).contains(v),
        manifest_step(LoaderKind::NeoForge, v, Ok(es), a, next),
    ensures
        a is Save,
        next == Stage::Artifact,
{
    let ev = entries_view(es@);
    assert forall|i: int| 0 <= i < es@.len() implies es@[i].url is Some by {
        assert(ev[i] == entry_view(es@[i]));
        assert(ev[i].1 is Some);
    }
    let k = choose|k: int| 0 <= k < listing_spec(LoaderKind::NeoForge, text).len()
        && listing_spec(LoaderKind::NeoForge, text)[k] == v;
    assert(ev[k] == entry_view(es@[k]));
    assert(catalog_spec(es@)[k] == v);
    lemma_listed_version_proceeds(LoaderKind::NeoForge, v, es, a, next);
}

} // verus!
