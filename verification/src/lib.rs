//! Request planning, response classification and upload choreography for the
//! Kaggle REST API. The library performs no I/O: it builds the requests, reads
//! the answers and decides what comes next, and the caller moves the bytes.
//!
//! - `client` holds the configuration of a client and plans the request of
//!   every operation; `endpoint` has the paths, `request` the requests as
//!   plain values, `locator` the URLs.
//! - `transport` classifies an answer by its status and decodes its body;
//!   `json` is what the client reads of a JSON document; `error` is the error
//!   taxonomy.
//! - `auth` resolves the credentials and makes the authorization value;
//!   `header` has the default headers.
//! - `upload` negotiates the upload of dataset files and walks a dataset
//!   folder; `submit` drives a competition submission from the URL
//!   negotiation to the finalize call; `stream` is the codec that turns a
//!   file into the chunks of a streamed body.
//! - `metadata` checks the description of a dataset; `text` reads and
//!   renders the decimal numbers of paths and headers.

pub mod auth;
pub mod client;
pub mod endpoint;
pub mod error;
pub mod header;
pub mod json;
pub mod locator;
pub mod metadata;
pub mod request;
pub mod stream;
pub mod submit;
pub mod text;
pub mod transport;
pub mod upload;

pub use auth::{Authentication, Environment, KaggleCredentials};
pub use client::{ApiResp, KaggleApiClient, KaggleApiClientBuilder};
pub use endpoint::CompetitionsList;
pub use error::{ApiError, CredentialIssue, KaggleError, MetadataIssue};
pub use request::{Method, Payload, Request};
pub use submit::{Phase, Step, Submission, UploadRoute};
pub use transport::Response;
pub use upload::{ArchiveMode, DatasetUploadFile, DirectoryUpload, Resource, UploadSessionInfo};
