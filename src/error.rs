use vstd::prelude::*;

verus! {

/// The closed set of ways in which listing or downloading a version fails.
#[derive(Debug, Clone)]
pub enum DownloadError {
    /// A local filesystem step failed.
    Io(String),
    /// A manifest or metadata document did not parse as expected.
    Json(String),
    /// A network transfer failed.
    Request(String),
    /// The requested version is absent from the manifest.
    VersionNotFound(String),
    /// The manifest is present but lacks what the download needs.
    InvalidMetadata(String),
}

/// The message that accompanies an error of each kind.
pub open spec fn error_message_spec(e: DownloadError) -> Seq<char> {
    match e {
        DownloadError::Io(s) => "IO error: "@ + s@,
        DownloadError::Json(s) => "JSON parsing error: "@ + s@,
        DownloadError::Request(s) => "Network error: "@ + s@,
        DownloadError::VersionNotFound(s) => "Version "@ + s@ + " not found"@,
        DownloadError::InvalidMetadata(s) => "Invalid metadata: "@ + s@,
    }
}

impl DownloadError {
    /// A human-readable description of the failure.
    pub fn message(&self) -> (r: String)
        ensures
            r@ == error_message_spec(*self),
    {
        match self {
            DownloadError::Io(s) => String::from_str("IO error: ").concat(s.as_str()),
            DownloadError::Json(s) => String::from_str("JSON parsing error: ").concat(s.as_str()),
            DownloadError::Request(s) => String::from_str("Network error: ").concat(s.as_str()),
            DownloadError::VersionNotFound(s) => {
                String::from_str("Version ").concat(s.as_str()).concat(" not found")
            },
            DownloadError::InvalidMetadata(s) => {
                String::from_str("Invalid metadata: ").concat(s.as_str())
            },
        }
    }
}

} // verus!
