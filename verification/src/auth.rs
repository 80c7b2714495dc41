//! Credentials: where they come from, and the `Basic` authorization value
//! that is made of them once.

use vstd::prelude::*;
use vstd::string::*;
use crate::error::{CredentialIssue, KaggleError};
use crate::header::{
    basic_authorization, basic_value, credential_bytes, encodable, encode_base64, push_all,
    MAX_CREDENTIAL_BYTES,
};
use crate::json::{decoded_json, JsonDocument, JsonObject, ObjectView};

verus! {

/// A user name and an API key. The fields are not readable from outside: the
/// only thing made of them is the authorization value.
#[derive(Clone, PartialEq, Eq)]
pub struct KaggleCredentials {
    pub(crate) user_name: String,
    pub(crate) key: String,
}

/// What the caller found in the process environment.
#[derive(Debug, Clone, PartialEq, Eq)]
pub struct Environment {
    /// The value of `KAGGLE_USERNAME`.
    pub user_name: Option<String>,
    /// The value of `KAGGLE_KEY`.
    pub key: Option<String>,
    /// The value of `KAGGLE_CONFIG_DIR`.
    pub config_dir: Option<String>,
    /// The path of `.kaggle/kaggle.json` under the home directory, where a
    /// home directory is known.
    pub home_config: Option<String>,
}

/// Where the credentials come from.
#[derive(Debug, Clone, PartialEq, Eq)]
pub enum Authentication {
    /// From the variables `KAGGLE_USERNAME` and `KAGGLE_KEY`.
    Env,
    /// From a `kaggle.json` file: at `path`, or at the default place.
    ConfigFile { path: Option<String> },
    /// These very credentials.
    Credentials { user_name: String, key: String },
}

/// The characters of a user name and a key.
pub struct CredentialsView {
    pub user_name: Seq<char>,
    pub key: Seq<char>,
}

impl View for KaggleCredentials {
    type V = CredentialsView;

    closed spec fn view(&self) -> CredentialsView {
        CredentialsView { user_name: self.user_name@, key: self.key@ }
    }
}

/// The path of the configuration file that `auth` reads in `env`:
/// `Ok(None)` where it reads no file, an error where it needs the default
/// place and none is known.
pub open spec fn config_path_spec(auth: Authentication, env: Environment) -> Result<
    Option<Seq<char>>,
    CredentialIssue,
> {
    match auth {
        Authentication::Env => Ok(None),
        Authentication::Credentials { .. } => Ok(None),
        Authentication::ConfigFile { path: Some(path) } => Ok(Some(path@)),
        Authentication::ConfigFile { path: None } => match env.config_dir {
            Some(dir) => Ok(Some(dir@)),
            None => match env.home_config {
                Some(file) => Ok(Some(file@)),
                None => Err(CredentialIssue::HomeDirectoryUnknown),
            },
        },
    }
}

/// The credentials that a JSON object holds: the texts under `username` and
/// `key`.
pub open spec fn object_credentials(object: ObjectView) -> Option<CredentialsView> {
    if object.contains_key("username"@) && object.contains_key("key"@) {
        match (object["username"@], object["key"@]) {
            (Some(user_name), Some(key)) => Some(CredentialsView { user_name, key }),
            _ => None,
        }
    } else {
        None
    }
}

/// The credentials that a configuration file holds.
pub open spec fn file_credentials(content: Seq<u8>) -> Option<CredentialsView> {
    match decoded_json(content) {
        Some(Some(object)) => object_credentials(object),
        _ => None,
    }
}

/// What `auth` resolves to in `env`, with `config_file` the content of the
/// file at its `config_path_spec`, or `None` where no such file exists.
pub open spec fn resolve_spec(
    auth: Authentication,
    env: Environment,
    config_file: Option<Seq<u8>>,
) -> Result<CredentialsView, KaggleError> {
    match auth {
        Authentication::Credentials { user_name, key } => Ok(
            CredentialsView { user_name: user_name@, key: key@ },
        ),
        Authentication::Env => match (env.user_name, env.key) {
            (None, _) => Err(KaggleError::Credentials(CredentialIssue::UserNameNotSet)),
            (Some(_), None) => Err(KaggleError::Credentials(CredentialIssue::KeyNotSet)),
            (Some(user_name), Some(key)) => Ok(
                CredentialsView { user_name: user_name@, key: key@ },
            ),
        },
        Authentication::ConfigFile { .. } => match config_path_spec(auth, env) {
            Err(issue) => Err(KaggleError::Credentials(issue)),
            Ok(_) => match config_file {
                None => Err(KaggleError::Credentials(CredentialIssue::ConfigFileMissing)),
                Some(content) => match file_credentials(content) {
                    Some(credentials) => Ok(credentials),
                    None => Err(KaggleError::Decode),
                },
            },
        },
    }
}

impl KaggleCredentials {
    /// Credentials from the two environment variables.
    pub fn from_env(env: &Environment) -> (r: Result<KaggleCredentials, KaggleError>)
        ensures
            match (env.user_name, env.key) {
                (None, _) => r == Err::<KaggleCredentials, KaggleError>(
                    KaggleError::Credentials(CredentialIssue::UserNameNotSet),
                ),
                (Some(_), None) => r == Err::<KaggleCredentials, KaggleError>(
                    KaggleError::Credentials(CredentialIssue::KeyNotSet),
                ),
                (Some(user_name), Some(key)) => r matches Ok(credentials) && credentials@
                    == (CredentialsView { user_name: user_name@, key: key@ }),
            },
    {
        match &env.user_name {
            None => Err(KaggleError::Credentials(CredentialIssue::UserNameNotSet)),
            Some(user_name) => match &env.key {
                None => Err(KaggleError::Credentials(CredentialIssue::KeyNotSet)),
                Some(key) => Ok(
                    KaggleCredentials { user_name: user_name.clone(), key: key.clone() },
                ),
            },
        }
    }

    /// Credentials from the content of a configuration file. Fails with
    /// `Decode` where the content is not a JSON object with texts under
    /// `username` and `key`.
    pub fn from_json(content: &[u8]) -> (r: Result<KaggleCredentials, KaggleError>)
        ensures
            match file_credentials(content@) {
                Some(credentials) => r matches Ok(found) && found@ == credentials,
                None => r == Err::<KaggleCredentials, KaggleError>(KaggleError::Decode),
            },
    {
        match JsonDocument::parse(content) {
            Ok(JsonDocument::Object(object)) => KaggleCredentials::from_object(&object),
            _ => Err(KaggleError::Decode),
        }
    }

    /// Credentials from a decoded configuration file. Fails with `Decode`
    /// where the object lacks a text under `username` or under `key`.
    pub fn from_object(object: &JsonObject) -> (r: Result<KaggleCredentials, KaggleError>)
        ensures
            match object_credentials(object@) {
                Some(credentials) => r matches Ok(found) && found@ == credentials,
                None => r == Err::<KaggleCredentials, KaggleError>(KaggleError::Decode),
            },
    {
        match (object.get_str("username"), object.get_str("key")) {
            (Some(user_name), Some(key)) => Ok(KaggleCredentials { user_name, key }),
            _ => Err(KaggleError::Decode),
        }
    }
}

impl KaggleCredentials {
    /// The value of the authorization header for these credentials. It is
    /// made exactly where the user name and the key have at most
    /// `MAX_CREDENTIAL_BYTES` bytes each.
    pub fn authorization(&self) -> (r: Result<Vec<u8>, KaggleError>)
        ensures
            match r {
                Ok(value) => encodable(self@) && value@ == basic_authorization(self@),
                Err(error) => !encodable(self@) && error == KaggleError::InvalidHeader,
            },
    {
        let user_name = self.user_name.as_str().as_bytes();
        let key = self.key.as_str().as_bytes();
        if user_name.len() > MAX_CREDENTIAL_BYTES || key.len() > MAX_CREDENTIAL_BYTES {
            return Err(KaggleError::InvalidHeader);
        }
        let mut plain: Vec<u8> = Vec::new();
        push_all(&mut plain, user_name);
        plain.push(58u8);
        push_all(&mut plain, key);
        assert(plain@ =~= credential_bytes(self@));
        let encoded = encode_base64(plain.as_slice());
        Ok(basic_value(encoded.as_slice()))
    }
}

impl Authentication {
    /// Authentication with the credentials given here.
    pub fn with_credentials(user_name: &str, key: &str) -> (r: Authentication)
        ensures
            r matches Authentication::Credentials { user_name: u, key: k } && u@ == user_name@
                && k@ == key@,
    {
        Authentication::Credentials { user_name: user_name.to_owned(), key: key.to_owned() }
    }

    /// The path of the configuration file to read before `credentials` is
    /// called, if any.
    pub fn config_path(&self, env: &Environment) -> (r: Result<Option<String>, KaggleError>)
        ensures
            match config_path_spec(*self, *env) {
                Ok(Some(path)) => r matches Ok(Some(found)) && found@ == path,
                Ok(None) => r == Ok::<Option<String>, KaggleError>(None),
                Err(issue) => r == Err::<Option<String>, KaggleError>(
                    KaggleError::Credentials(issue),
                ),
            },
    {
        match self {
            Authentication::Env => Ok(None),
            Authentication::Credentials { .. } => Ok(None),
            Authentication::ConfigFile { path: Some(path) } => Ok(Some(path.clone())),
            Authentication::ConfigFile { path: None } => match &env.config_dir {
                Some(dir) => Ok(Some(dir.clone())),
                None => match &env.home_config {
                    Some(file) => Ok(Some(file.clone())),
                    None => Err(KaggleError::Credentials(CredentialIssue::HomeDirectoryUnknown)),
                },
            },
        }
    }

    /// Resolves the credentials. `config_file` is the content of the file at
    /// `config_path`, or `None` where that file does not exist.
    pub fn credentials(self, env: &Environment, config_file: Option<&[u8]>) -> (r: Result<
        KaggleCredentials,
        KaggleError,
    >)
        ensures
            match resolve_spec(
                self,
                *env,
                match config_file {
                    Some(content) => Some(content@),
                    None => None,
                },
            ) {
                Ok(credentials) => r matches Ok(found) && found@ == credentials,
                Err(error) => r == Err::<KaggleCredentials, KaggleError>(error),
            },
    {
        match self {
            Authentication::Env => KaggleCredentials::from_env(env),
            Authentication::Credentials { user_name, key } => Ok(
                KaggleCredentials { user_name, key },
            ),
            Authentication::ConfigFile { path } => {
                let auth = Authentication::ConfigFile { path };
                match auth.config_path(env) {
                    Err(error) => Err(error),
                    Ok(_) => match config_file {
                        None => Err(
                            KaggleError::Credentials(CredentialIssue::ConfigFileMissing),
                        ),
                        Some(content) => KaggleCredentials::from_json(content),
                    },
                }
            },
        }
    }
}

impl Default for Authentication {
    fn default() -> (r: Authentication)
        ensures
            r == (Authentication::ConfigFile { path: None }),
    {
        Authentication::ConfigFile { path: None }
    }
}

} // verus!
