//! Data model: the shapes of SharePoint Online responses, the library's
//! error type, the per-write outcome, and the lifecycle statuses reported to
//! an observer.
//!
//! The response structs mirror the JSON bodies that SharePoint Online
//! returns (token grant, `contextinfo`, and the error envelope).  They are
//! plain values here; the surrounding application decodes wire bytes into
//! them before handing them to the library.

use vstd::prelude::*;

verus! {

/// Failure surfaced by the engine; carries a human-readable message.
#[derive(Debug)]
pub struct SPOError {
    message: String,
}

impl View for SPOError {
    type V = Seq<char>;

    closed spec fn view(&self) -> Seq<char> {
        self.message@
    }
}

impl SPOError {
    pub fn new(message: &String) -> (r: SPOError)
        ensures
            r@ == message@,
    {
        SPOError { message: message.clone() }
    }

    /// The error rendered for display, in the form `SPOError: {message}`.
    pub fn to_display_string(&self) -> (r: String)
        ensures
            r@ == "SPOError: "@ + self@,
    {
        let mut s = String::new();
        s.append("SPOError: ");
        s.append(self.message.as_str());
        proof {
            assert(s@ =~= "SPOError: "@ + self@);
        }
        s
    }

    /// The bare message.
    pub fn message(&self) -> (r: String)
        ensures
            r@ == self@,
    {
        self.message.clone()
    }
}

/// The discriminated result of one SharePoint Online write call:
/// accepted, or rejected with the server's error code and message.
#[derive(Debug, PartialEq)]
pub enum ChunkOutcome {
    Accepted,
    Rejected { code: String, message: String },
}

/// Lifecycle points reported to an optional observer; no logic depends
/// on them.
#[derive(Debug, PartialEq)]
pub enum ProcessStatus {
    StartDownload,
    Downloading,
    DownloadComplete,
    StartUpload,
    ContinueUpload,
    FinishUpload,
    UploadComplete,
}

/// The error envelope of a rejected SharePoint Online write.
#[derive(Debug, PartialEq)]
pub struct SPOErrorResponse {
    pub error: Error,
}

/// The `code` / `message` pair inside [`SPOErrorResponse`].
#[derive(Debug, PartialEq)]
pub struct Error {
    pub code: String,
    pub message: Message,
}

/// A localized error message.
#[derive(Debug, PartialEq)]
pub struct Message {
    pub lang: String,
    pub value: String,
}

/// The body of a `contextinfo` response.
#[derive(Debug, PartialEq)]
pub struct SPOContextInfoResponse {
    pub d: D,
}

/// The `d` wrapper that SharePoint's verbose OData format puts around
/// the payload.
#[derive(Debug, PartialEq)]
pub struct D {
    pub get_context_web_information: GetContextWebInformation,
}

/// The digest payload: the anti-forgery token value and its lifetime.
#[derive(Debug, PartialEq)]
pub struct GetContextWebInformation {
    pub metadata: Metadata,
    pub form_digest_timeout_seconds: i64,
    pub form_digest_value: String,
    pub library_version: String,
    pub site_full_url: String,
    pub supported_schema_versions: SupportedSchemaVersions,
    pub web_full_url: String,
}

/// OData type metadata attached to the digest payload.
#[derive(Debug, PartialEq)]
pub struct Metadata {
    pub type_field: String,
}

/// The schema versions the site supports.
#[derive(Debug, PartialEq)]
pub struct SupportedSchemaVersions {
    pub metadata: Metadata2,
    pub results: Vec<String>,
}

/// OData type metadata attached to the schema-version list.
#[derive(Debug, PartialEq)]
pub struct Metadata2 {
    pub type_field: String,
}

/// The body of an OAuth2 client-credentials token grant.
#[derive(Debug, PartialEq)]
pub struct SPOTokenResponse {
    pub token_type: Option<String>,
    pub expires_in: Option<String>,
    pub not_before: Option<String>,
    pub expires_on: Option<String>,
    pub resource: Option<String>,
    pub access_token: Option<String>,
}

/// One HTTP header as a name / value pair.
#[derive(Debug, PartialEq)]
pub struct Header {
    pub name: String,
    pub value: String,
}

} // verus!
