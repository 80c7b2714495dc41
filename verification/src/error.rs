//! The error taxonomy: what the remote service refused, and what the client
//! found wrong locally or in an answer.

use vstd::prelude::*;
use vstd::string::*;
use crate::text::{decimal_text, render_u64};

verus! {

/// A refusal of the remote service, read off the status line of its answer.
#[derive(Debug, Clone, Copy, PartialEq, Eq, Structural)]
pub enum ApiError {
    /// HTTP 401: the credentials are missing or wrong.
    Unauthorized,
    /// HTTP 429, with the number of seconds to wait where the service gave one.
    RateLimited(Option<u64>),
    /// Any other status outside 200 to 299.
    Other(u16),
}

impl ApiError {
    /// The text shown for this refusal.
    pub open spec fn message_spec(self) -> Seq<char> {
        match self {
            ApiError::Unauthorized => "Unauthorized request to API"@,
            ApiError::RateLimited(Some(seconds)) => "Exceeded API request limit - please wait "@
                + decimal_text(seconds as nat) + " seconds"@,
            ApiError::RateLimited(None) => "Exceeded API request limit"@,
            ApiError::Other(status) => "Kaggle API reported error code "@ + decimal_text(
                status as nat,
            ),
        }
    }

    /// Renders this refusal for a reader.
    pub fn message(&self) -> (r: String)
        ensures
            r@ == self.message_spec(),
    {
        match self {
            ApiError::Unauthorized => "Unauthorized request to API".to_owned(),
            ApiError::RateLimited(Some(seconds)) => {
                let number = render_u64(*seconds);
                "Exceeded API request limit - please wait ".to_owned().concat(
                    number.as_str(),
                ).concat(" seconds")
            },
            ApiError::RateLimited(None) => "Exceeded API request limit".to_owned(),
            ApiError::Other(status) => {
                let number = render_u64(*status as u64);
                "Kaggle API reported error code ".to_owned().concat(number.as_str())
            },
        }
    }
}

/// Why a dataset description was turned down before anything was uploaded.
#[derive(Debug, Clone, Copy, PartialEq, Eq, Structural)]
pub enum MetadataIssue {
    MissingOwnerSlug,
    MissingDatasetSlug,
    DefaultSlug,
    DefaultTitle,
    LicenseCount,
    SlugLength,
    TitleLength,
    SubtitleLength,
}

impl MetadataIssue {
    /// The text shown for this finding.
    pub open spec fn message_spec(self) -> Seq<char> {
        match self {
            MetadataIssue::MissingOwnerSlug => "Missing owner slug in id"@,
            MetadataIssue::MissingDatasetSlug => "Missing dataset slug in id"@,
            MetadataIssue::DefaultSlug => "Default slug detected, please change values before uploading"@,
            MetadataIssue::DefaultTitle => "Default title detected, please change values before uploading"@,
            MetadataIssue::LicenseCount => "Please specify exactly one license"@,
            MetadataIssue::SlugLength => "The dataset slug must be between 6 and 50 characters"@,
            MetadataIssue::TitleLength => "The dataset title must be between 6 and 50 characters"@,
            MetadataIssue::SubtitleLength => "Subtitle length must be between 20 and 80 characters"@,
        }
    }

    /// Renders this finding for a reader.
    pub fn message(&self) -> (r: &'static str)
        ensures
            r@ == self.message_spec(),
    {
        match self {
            MetadataIssue::MissingOwnerSlug => "Missing owner slug in id",
            MetadataIssue::MissingDatasetSlug => "Missing dataset slug in id",
            MetadataIssue::DefaultSlug => "Default slug detected, please change values before uploading",
            MetadataIssue::DefaultTitle => "Default title detected, please change values before uploading",
            MetadataIssue::LicenseCount => "Please specify exactly one license",
            MetadataIssue::SlugLength => "The dataset slug must be between 6 and 50 characters",
            MetadataIssue::TitleLength => "The dataset title must be between 6 and 50 characters",
            MetadataIssue::SubtitleLength => "Subtitle length must be between 20 and 80 characters",
        }
    }
}

/// Why no credentials could be resolved.
#[derive(Debug, Clone, Copy, PartialEq, Eq, Structural)]
pub enum CredentialIssue {
    /// `KAGGLE_USERNAME` is not set.
    UserNameNotSet,
    /// `KAGGLE_KEY` is not set.
    KeyNotSet,
    /// Neither a configuration directory nor a home directory is known.
    HomeDirectoryUnknown,
    /// The configuration file does not exist.
    ConfigFileMissing,
}

impl CredentialIssue {
    /// The text shown for this finding.
    pub open spec fn message_spec(self) -> Seq<char> {
        match self {
            CredentialIssue::UserNameNotSet => "KAGGLE_USERNAME env variable not present."@,
            CredentialIssue::KeyNotSet => "KAGGLE_KEY env variable not present."@,
            CredentialIssue::HomeDirectoryUnknown => "Failed to detect home directory."@,
            CredentialIssue::ConfigFileMissing => "kaggle config file does not exist"@,
        }
    }

    /// Renders this finding for a reader.
    pub fn message(&self) -> (r: &'static str)
        ensures
            r@ == self.message_spec(),
    {
        match self {
            CredentialIssue::UserNameNotSet => "KAGGLE_USERNAME env variable not present.",
            CredentialIssue::KeyNotSet => "KAGGLE_KEY env variable not present.",
            CredentialIssue::HomeDirectoryUnknown => "Failed to detect home directory.",
            CredentialIssue::ConfigFileMissing => "kaggle config file does not exist",
        }
    }
}

/// Everything that an operation of this library can fail with.
#[derive(Debug, Clone, PartialEq, Eq)]
pub enum KaggleError {
    /// The service refused the request.
    Api(ApiError),
    /// A local path that had to exist does not.
    FileNotFound(String),
    /// An answer was JSON but lacked the shape that the step needs.
    MalformedResponse,
    /// The answer to an upload carries no `token`.
    MissingToken,
    /// The body of an answer is not JSON.
    Decode,
    /// The dataset description is not fit for upload.
    Metadata(MetadataIssue),
    /// No credentials could be resolved.
    Credentials(CredentialIssue),
    /// The base URL and a path do not make a URL.
    InvalidUrl,
    /// A header value holds a byte that no header may carry.
    InvalidHeader,
    /// No download directory was configured and none was provided.
    NoDownloadDir,
    /// A step was asked of a sequence that is not at that step.
    OutOfSequence,
}

impl KaggleError {
    /// The text shown for this error.
    pub open spec fn message_spec(self) -> Seq<char> {
        match self {
            KaggleError::Api(refusal) => refusal.message_spec(),
            KaggleError::FileNotFound(path) => "File not found: "@ + path@,
            KaggleError::MalformedResponse => "Malformed response"@,
            KaggleError::MissingToken => "Missing upload token"@,
            KaggleError::Decode => "Response is not JSON"@,
            KaggleError::Metadata(issue) => issue.message_spec(),
            KaggleError::Credentials(issue) => issue.message_spec(),
            KaggleError::InvalidUrl => "Invalid URL"@,
            KaggleError::InvalidHeader => "Invalid header value"@,
            KaggleError::NoDownloadDir => "No download directory"@,
            KaggleError::OutOfSequence => "Step out of sequence"@,
        }
    }

    /// Renders this error for a reader.
    pub fn message(&self) -> (r: String)
        ensures
            r@ == self.message_spec(),
    {
        match self {
            KaggleError::Api(refusal) => refusal.message(),
            KaggleError::FileNotFound(path) => "File not found: ".to_owned().concat(
                path.as_str(),
            ),
            KaggleError::MalformedResponse => "Malformed response".to_owned(),
            KaggleError::MissingToken => "Missing upload token".to_owned(),
            KaggleError::Decode => "Response is not JSON".to_owned(),
            KaggleError::Metadata(issue) => issue.message().to_owned(),
            KaggleError::Credentials(issue) => issue.message().to_owned(),
            KaggleError::InvalidUrl => "Invalid URL".to_owned(),
            KaggleError::InvalidHeader => "Invalid header value".to_owned(),
            KaggleError::NoDownloadDir => "No download directory".to_owned(),
            KaggleError::OutOfSequence => "Step out of sequence".to_owned(),
        }
    }
}

} // verus!
