//! Chunked transfer of a blob-store file into a SharePoint Online document
//! library: endpoint URL rendering, request assembly, and the chunking state
//! machine that maps a byte stream onto the one-time-save or
//! StartUpload / ContinueUpload / FinishUpload protocol.

pub mod endpoint;
pub mod engine;
pub mod entra;
pub mod model;
pub mod requests;
pub mod text;
pub mod transfer;

pub use endpoint::EndpointModel;
pub use endpoint::SPOEndpoint;
pub use engine::SPOEngine;
pub use entra::IDToken;
pub use entra::JWKSKeyItem;
pub use entra::JWKS;
pub use entra::OpenIDConfigurationV2;
pub use entra::ResponseAuthorized;
pub use model::ChunkOutcome;
pub use model::Error;
pub use model::GetContextWebInformation;
pub use model::Header;
pub use model::Message;
pub use model::Metadata;
pub use model::Metadata2;
pub use model::ProcessStatus;
pub use model::SPOContextInfoResponse;
pub use model::SPOError;
pub use model::SPOErrorResponse;
pub use model::SPOTokenResponse;
pub use model::SupportedSchemaVersions;
pub use model::D;
pub use requests::classify_write_response;
pub use requests::digest_request_headers;
pub use requests::token_request_body;
pub use requests::token_request_headers;
pub use requests::token_request_url;
pub use requests::write_request_headers;
pub use text::u64_to_string;
pub use transfer::models_of;
pub use transfer::transfer_plan;
pub use transfer::CallModel;
pub use transfer::TransferSession;
pub use transfer::UploadCall;
pub use transfer::UploadCallKind;
pub use transfer::MAX_CHUNK_SIZE;
