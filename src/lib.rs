//! Loader selection, version catalogs and artifact resolution for provisioning
//! a Minecraft server directory.

mod config;
mod download;
mod error;
mod json;
mod loader;
mod manifest;
mod versions;

pub use error::{error_message_spec, DownloadError};
pub use loader::{loader_name_spec, loader_of_name, same_text, LoaderKind};
pub use manifest::{
    all_located, catalog_of, catalog_spec, entries_view, entry_view, is_first_match, opt_view, is_listed,
    lemma_listed_versions_resolve, lemma_unlisted_version_not_found, missing_url_reason,
    resolve_entry, resolves_to, VersionEntry,
};
pub use json::{
    array_of, flat_ids, flat_ids_spec, index_entries, index_entries_spec, is_first_key, json_of,
    member, member_spec, member_str, read_document, server_download, server_url_spec, str_of,
    string_member, versions_spec, Json,
};
pub use versions::{
    get_loader_versions, lemma_listing_nonempty, listing_spec, loader_listing_spec, manifest_spec, neoforge_view, installer_file, installer_file_spec, installer_url, installer_url_spec,
    manifest_url, manifest_url_spec, neoforge_entries, neoforge_repository_spec, parse_detail, parse_manifest,
    server_file_spec, versions_of, Loader, Neoforge, Vanilla,
};
pub use download::{
    download_version, invalid_loader_reason, lemma_unlisted_version_saves_nothing,
    lemma_listed_neoforge_version_proceeds, lemma_listed_version_proceeds, lemma_unlocated_entry_is_invalid_metadata, manifest_step, Action, ArtifactDescriptor,
    DownloadSession, Stage,
};
pub use config::{
    config_text, config_text_spec, entry_spec, get_value, is_first_entry, setting_spec, toml_of, Toml,
};
