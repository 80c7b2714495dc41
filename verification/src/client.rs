//! The client: what it is configured with, and the request that each
//! operation sends.

use vstd::prelude::*;
use vstd::string::*;
use vstd::utf8::encode_utf8;
use crate::auth::{resolve_spec, Authentication, CredentialsView, Environment, KaggleCredentials};
use crate::endpoint::{
    competitions_list_path_spec, data_archive_name, data_archive_name_spec,
    data_download_all_path, data_download_all_path_spec, data_download_file_path,
    data_download_file_path_spec, data_list_path, data_list_path_spec, dataset_upload_path,
    dataset_upload_path_spec, leaderboard_archive_name, leaderboard_archive_name_spec,
    leaderboard_download_path, leaderboard_download_path_spec, leaderboard_view_path,
    leaderboard_view_path_spec, submission_submit_path, submission_submit_path_spec,
    submission_upload_path, submission_upload_path_spec, submission_url_path,
    submission_url_path_spec, submissions_list_path, submissions_list_path_spec,
    CompetitionsList,
};
use crate::error::KaggleError;
use crate::header::{
    authorization_name, basic_authorization, default_user_agent, encodable, header_views,
    is_valid_header_value, lemma_with_header_is_unique, lemma_without_name, same_name,
    set_header, user_agent_name, valid_header_value, with_header, without_name, Header,
};
use crate::locator::{
    append_query, join_url, joined_pairs, joined_url, plain_pairs, with_query,
};
use crate::request::{
    field_pairs, form_field, Destination, DestinationView, Download, FormField, Method, Payload,
    PayloadView, Request, RequestView,
};
use crate::text::{decimal_text, render_u64};
use crate::upload::{
    resource_views, ArchiveMode, DirectoryUpload, DirectoryUploadView, FileStat, Resource,
};

verus! {

/// The header in which the service names the version of its API.
pub const HEADER_API_VERSION: &'static str = "X-Kaggle-ApiVersion";

/// The name of the file that describes a dataset.
pub const DATASET_METADATA_FILE: &'static str = "dataset-metadata.json";

/// The name under which older folders hold the description of a dataset.
pub const OLD_DATASET_METADATA_FILE: &'static str = "datapackage.json";

/// The name of the file that describes a kernel.
pub const KERNEL_METADATA_FILE: &'static str = "kernel-metadata.json";

/// The answer of an operation for which the service defines no shape that
/// the client reads. It carries nothing.
#[derive(Debug, Clone, Copy, PartialEq, Eq, Structural)]
pub struct ApiResp;

/// The characters of an optional text.
pub open spec fn opt_str_view(text: Option<&str>) -> Option<Seq<char>> {
    match text {
        Some(t) => Some(t@),
        None => None,
    }
}

/// The bytes of an optional slice.
pub open spec fn opt_bytes_view(bytes: Option<&[u8]>) -> Option<Seq<u8>> {
    match bytes {
        Some(b) => Some(b@),
        None => None,
    }
}

/// What a client is configured with.
pub struct ClientView {
    pub base_url: Seq<char>,
    pub credentials: CredentialsView,
    pub headers: Seq<(Seq<char>, Seq<u8>)>,
    pub download_dir: Seq<char>,
}

/// A client of the API. It is built once and not changed afterwards.
#[derive(Clone)]
pub struct KaggleApiClient {
    base_url: String,
    credentials: KaggleCredentials,
    headers: Vec<Header>,
    download_dir: String,
}

impl View for KaggleApiClient {
    type V = ClientView;

    closed spec fn view(&self) -> ClientView {
        ClientView {
            base_url: self.base_url@,
            credentials: self.credentials@,
            headers: header_views(self.headers@),
            download_dir: self.download_dir@,
        }
    }
}

/// What a builder has been given so far.
pub struct BuilderView {
    pub base_url: Seq<char>,
    pub user_agent: Option<Seq<char>>,
    pub headers: Option<Seq<(Seq<char>, Seq<u8>)>>,
    pub auth: Option<Authentication>,
    pub download_dir: Option<Seq<char>>,
}

/// Collects the configuration of a client.
#[derive(Clone)]
pub struct KaggleApiClientBuilder {
    base_url: String,
    user_agent: Option<String>,
    headers: Option<Vec<Header>>,
    auth: Option<Authentication>,
    download_dir: Option<String>,
}

impl View for KaggleApiClientBuilder {
    type V = BuilderView;

    closed spec fn view(&self) -> BuilderView {
        BuilderView {
            base_url: self.base_url@,
            user_agent: match self.user_agent {
                Some(agent) => Some(agent@),
                None => None,
            },
            headers: match self.headers {
                Some(headers) => Some(header_views(headers@)),
                None => None,
            },
            auth: self.auth,
            download_dir: match self.download_dir {
                Some(dir) => Some(dir@),
                None => None,
            },
        }
    }
}

/// The base URL of a client for which none is configured.
pub open spec fn default_base_url() -> Seq<char> {
    "https://www.kaggle.com/api/v1"@
}

/// The client that a builder makes, or the error that it stops with: the
/// credentials are resolved first, then the authorization value and the user
/// agent are made, then the download directory is settled.
pub open spec fn build_spec(
    builder: BuilderView,
    env: Environment,
    config_file: Option<Seq<u8>>,
    fallback_dir: Option<Seq<char>>,
) -> Result<ClientView, KaggleError> {
    let auth = match builder.auth {
        Some(auth) => auth,
        None => Authentication::ConfigFile { path: None },
    };
    let agent = match builder.user_agent {
        Some(agent) => agent,
        None => default_user_agent(),
    };
    let given = match builder.headers {
        Some(headers) => headers,
        None => Seq::empty(),
    };
    match resolve_spec(auth, env, config_file) {
        Err(error) => Err(error),
        Ok(credentials) => if !encodable(credentials) || !valid_header_value(
            encode_utf8(agent),
        ) {
            Err(KaggleError::InvalidHeader)
        } else {
            let headers = with_header(
                with_header(given, authorization_name(), basic_authorization(credentials)),
                user_agent_name(),
                encode_utf8(agent),
            );
            match (builder.download_dir, fallback_dir) {
                (Some(dir), _) => Ok(
                    ClientView {
                        base_url: builder.base_url,
                        credentials,
                        headers,
                        download_dir: dir,
                    },
                ),
                (None, Some(dir)) => Ok(
                    ClientView {
                        base_url: builder.base_url,
                        credentials,
                        headers,
                        download_dir: dir,
                    },
                ),
                (None, None) => Err(KaggleError::NoDownloadDir),
            }
        },
    }
}

/// Every client that is built sends the authorization value of its
/// credentials: its headers hold a header named `authorization`, and every
/// header of that name, ASCII case aside, carries `Basic` and the encoded
/// credentials, whatever headers the builder was given.
pub proof fn lemma_built_client_authorizes(
    builder: BuilderView,
    env: Environment,
    config_file: Option<Seq<u8>>,
    fallback_dir: Option<Seq<char>>,
)
    requires
        build_spec(builder, env, config_file, fallback_dir).is_ok(),
    ensures
        ({
            let client = build_spec(builder, env, config_file, fallback_dir).unwrap();
            let authorization = (authorization_name(), basic_authorization(client.credentials));
            &&& client.headers.contains(authorization)
            &&& forall|i: int|
                0 <= i < client.headers.len() && same_name(
                    (#[trigger] client.headers[i]).0,
                    authorization_name(),
                ) ==> client.headers[i] == authorization
        }),
{
    let client = build_spec(builder, env, config_file, fallback_dir).unwrap();
    let authorization = (authorization_name(), basic_authorization(client.credentials));
    let given = match builder.headers {
        Some(headers) => headers,
        None => Seq::empty(),
    };
    let first = with_header(given, authorization_name(), authorization.1);
    let kept = without_name(first, user_agent_name());
    reveal_strlit("authorization");
    reveal_strlit("user-agent");
    lemma_with_header_is_unique(given, authorization_name(), authorization.1);
    lemma_without_name(first, user_agent_name());
    let at = choose|k: int| 0 <= k < kept.len() && kept[k] == authorization;
    assert(client.headers[at] == authorization);
    assert forall|i: int|
        0 <= i < client.headers.len() && same_name(
            (#[trigger] client.headers[i]).0,
            authorization_name(),
        ) implies client.headers[i] == authorization by {
        if i < kept.len() {
            let k = choose|k: int| 0 <= k < first.len() && first[k] == kept[i];
            assert(k == first.len() - 1);
        }
    }
}

impl KaggleApiClientBuilder {
    /// Replaces the headers that the client sends with every request.
    pub fn headers(self, headers: Vec<Header>) -> (r: Self)
        ensures
            r@ == (BuilderView { headers: Some(header_views(headers@)), ..self@ }),
    {
        KaggleApiClientBuilder {
            base_url: self.base_url,
            user_agent: self.user_agent,
            headers: Some(headers),
            auth: self.auth,
            download_dir: self.download_dir,
        }
    }

    /// Sets the directory where downloads are stored.
    pub fn download_dir(self, download_dir: &str) -> (r: Self)
        ensures
            r@ == (BuilderView { download_dir: Some(download_dir@), ..self@ }),
    {
        KaggleApiClientBuilder {
            base_url: self.base_url,
            user_agent: self.user_agent,
            headers: self.headers,
            auth: self.auth,
            download_dir: Some(download_dir.to_owned()),
        }
    }

    /// The headers that the client sends with every request, for changing
    /// them in place; an empty list where none were set.
    pub fn headers_mut(&mut self) -> (r: &mut Vec<Header>)
        ensures
            header_views(r@) == match old(self)@.headers {
                Some(headers) => headers,
                None => Seq::empty(),
            },
            final(self)@ == (BuilderView {
                headers: Some(header_views(final(r)@)),
                ..old(self)@
            }),
    {
        if self.headers.is_none() {
            self.headers = Some(Vec::new());
        }
        self.headers.as_mut().unwrap()
    }

    /// Whether a download directory has been set.
    pub fn has_download_dir(&self) -> (r: bool)
        ensures
            r == self@.download_dir.is_some(),
    {
        self.download_dir.is_some()
    }

    /// Sets the user agent.
    pub fn user_agent(self, user_agent: &str) -> (r: Self)
        ensures
            r@ == (BuilderView { user_agent: Some(user_agent@), ..self@ }),
    {
        KaggleApiClientBuilder {
            base_url: self.base_url,
            user_agent: Some(user_agent.to_owned()),
            headers: self.headers,
            auth: self.auth,
            download_dir: self.download_dir,
        }
    }

    /// Sets the URL against which the paths of the endpoints are resolved.
    pub fn base_url(self, base_url: &str) -> (r: Self)
        ensures
            r@ == (BuilderView { base_url: base_url@, ..self@ }),
    {
        KaggleApiClientBuilder {
            base_url: base_url.to_owned(),
            user_agent: self.user_agent,
            headers: self.headers,
            auth: self.auth,
            download_dir: self.download_dir,
        }
    }

    /// Sets where the credentials come from.
    pub fn auth(self, auth: Authentication) -> (r: Self)
        ensures
            r@ == (BuilderView { auth: Some(auth), ..self@ }),
    {
        KaggleApiClientBuilder {
            base_url: self.base_url,
            user_agent: self.user_agent,
            headers: self.headers,
            auth: Some(auth),
            download_dir: self.download_dir,
        }
    }

    /// The authentication that `build` will resolve.
    pub fn authentication(&self) -> (r: Authentication)
        ensures
            r == match self@.auth {
                Some(auth) => auth,
                None => Authentication::ConfigFile { path: None },
            },
    {
        match &self.auth {
            Some(Authentication::Env) => Authentication::Env,
            Some(Authentication::ConfigFile { path: Some(path) }) => Authentication::ConfigFile {
                path: Some(path.clone()),
            },
            Some(Authentication::ConfigFile { path: None }) => Authentication::ConfigFile {
                path: None,
            },
            Some(Authentication::Credentials { user_name, key }) => Authentication::Credentials {
                user_name: user_name.clone(),
                key: key.clone(),
            },
            None => Authentication::ConfigFile { path: None },
        }
    }

    /// Builds the client. `config_file` is the content of the file that the
    /// authentication names, or `None` where it does not exist;
    /// `fallback_dir` is a directory to download to where none was set.
    pub fn build(
        self,
        env: &Environment,
        config_file: Option<&[u8]>,
        fallback_dir: Option<&str>,
    ) -> (r: Result<KaggleApiClient, KaggleError>)
        ensures
            match build_spec(
                self@,
                *env,
                opt_bytes_view(config_file),
                opt_str_view(fallback_dir),
            ) {
                Ok(client) => r matches Ok(built) && built@ == client,
                Err(error) => r == Err::<KaggleApiClient, KaggleError>(error),
            },
    {
        let auth = match self.auth {
            Some(auth) => auth,
            None => Authentication::ConfigFile { path: None },
        };
        let credentials = match auth.credentials(env, config_file) {
            Ok(credentials) => credentials,
            Err(error) => return Err(error),
        };
        let agent = match self.user_agent {
            Some(agent) => agent,
            None => "kaggle/0.1.0".to_owned(),
        };
        let given = match self.headers {
            Some(headers) => headers,
            None => Vec::new(),
        };
        let authorization = match credentials.authorization() {
            Ok(value) => value,
            Err(error) => return Err(error),
        };
        let agent_bytes = agent.as_str().as_bytes();
        if !is_valid_header_value(agent_bytes) {
            return Err(KaggleError::InvalidHeader);
        }
        let mut agent_value: Vec<u8> = Vec::new();
        crate::header::push_all(&mut agent_value, agent_bytes);
        let headers = set_header(given, "authorization", authorization);
        let headers = set_header(headers, "user-agent", agent_value);
        let download_dir = match self.download_dir {
            Some(dir) => dir,
            None => match fallback_dir {
                Some(dir) => dir.to_owned(),
                None => return Err(KaggleError::NoDownloadDir),
            },
        };
        Ok(KaggleApiClient { base_url: self.base_url, credentials, headers, download_dir })
    }
}

impl Default for KaggleApiClientBuilder {
    fn default() -> (r: Self)
        ensures
            r@ == (BuilderView {
                base_url: default_base_url(),
                user_agent: None,
                headers: None,
                auth: None,
                download_dir: None,
            }),
    {
        KaggleApiClientBuilder {
            base_url: "https://www.kaggle.com/api/v1".to_owned(),
            user_agent: None,
            headers: None,
            auth: None,
            download_dir: None,
        }
    }
}

/// The request for `reference` under `base`, or `InvalidUrl` where the two
/// make no URL.
pub open spec fn plan_spec(
    base: Seq<char>,
    reference: Seq<char>,
    method: Method,
    payload: PayloadView,
) -> Result<RequestView, KaggleError> {
    match joined_url(base, reference) {
        Some(url) => Ok(RequestView { method, url, payload }),
        None => Err(KaggleError::InvalidUrl),
    }
}

/// A planned request, or the error, with texts as sequences of characters.
pub open spec fn request_view(r: Result<Request, KaggleError>) -> Result<RequestView, KaggleError> {
    match r {
        Ok(request) => Ok(request@),
        Err(error) => Err(error),
    }
}

/// The download for `reference` under `base`, written to `target` where one
/// is given, else to `name` in the download directory.
pub open spec fn download_spec(
    base: Seq<char>,
    reference: Seq<char>,
    target: Option<Seq<char>>,
    name: Seq<char>,
) -> Result<(RequestView, DestinationView), KaggleError> {
    match plan_spec(base, reference, Method::Get, PayloadView::Empty) {
        Ok(request) => Ok(
            (
                request,
                match target {
                    Some(path) => DestinationView::Path(path),
                    None => DestinationView::DownloadDir(name),
                },
            ),
        ),
        Err(error) => Err(error),
    }
}

/// A planned download, or the error, with texts as sequences of characters.
pub open spec fn download_view(r: Result<Download, KaggleError>) -> Result<
    (RequestView, DestinationView),
    KaggleError,
> {
    match r {
        Ok(download) => Ok((download.request@, download.output@)),
        Err(error) => Err(error),
    }
}

impl KaggleApiClient {
    /// A builder with the default base URL and nothing else set.
    pub fn builder() -> (r: KaggleApiClientBuilder)
        ensures
            r@ == (BuilderView {
                base_url: default_base_url(),
                user_agent: None,
                headers: None,
                auth: None,
                download_dir: None,
            }),
    {
        KaggleApiClientBuilder::default()
    }

    /// The directory where downloads are stored.
    pub fn download_dir(&self) -> (r: &String)
        ensures
            r@ == self@.download_dir,
    {
        &self.download_dir
    }

    /// The URL against which paths are resolved.
    pub fn base_url(&self) -> (r: &String)
        ensures
            r@ == self@.base_url,
    {
        &self.base_url
    }

    /// The headers that go with every request.
    pub fn default_headers(&self) -> (r: &Vec<Header>)
        ensures
            header_views(r@) == self@.headers,
    {
        &self.headers
    }

    /// Resolves a path against the base URL.
    pub fn join_url(&self, path: &str) -> (r: Result<String, KaggleError>)
        ensures
            match joined_url(self@.base_url, path@) {
                Some(url) => r matches Ok(text) && text@ == url,
                None => r == Err::<String, KaggleError>(KaggleError::InvalidUrl),
            },
    {
        join_url(self.base_url.as_str(), path)
    }

    /// The request with this verb and payload for a path under the base URL.
    pub fn plan(&self, reference: &str, method: Method, payload: Payload) -> (r: Result<
        Request,
        KaggleError,
    >)
        ensures
            request_view(r) == plan_spec(self@.base_url, reference@, method, payload@),
    {
        match self.join_url(reference) {
            Ok(url) => Ok(Request { method, url, payload }),
            Err(error) => Err(error),
        }
    }

    /// The download of a path under the base URL.
    fn plan_download(&self, reference: &str, target: Option<&str>, name: String) -> (r: Result<
        Download,
        KaggleError,
    >)
        ensures
            download_view(r) == download_spec(
                self@.base_url,
                reference@,
                opt_str_view(target),
                name@,
            ),
    {
        match self.plan(reference, Method::Get, Payload::Empty) {
            Ok(request) => {
                let output = match target {
                    Some(path) => Destination::Path(path.to_owned()),
                    None => Destination::DownloadDir(name),
                };
                Ok(Download { request, output })
            },
            Err(error) => Err(error),
        }
    }

    /// Lists competitions: a GET of `competitions/list` with the filter as
    /// its query.
    pub fn competitions_list(&self, competition: &CompetitionsList) -> (r: Result<
        Request,
        KaggleError,
    >)
        ensures
            request_view(r) == plan_spec(
                self@.base_url,
                with_query(competitions_list_path_spec(), competition.query_pairs_spec()),
                Method::Get,
                PayloadView::Empty,
            ),
            plain_pairs(competition.query_pairs_spec()) ==> request_view(r) == plan_spec(
                self@.base_url,
                competitions_list_path_spec() + "?"@ + joined_pairs(
                    competition.query_pairs_spec(),
                ),
                Method::Get,
                PayloadView::Empty,
            ),
    {
        let pairs = competition.query_pairs();
        let reference = append_query("competitions/list", &pairs);
        self.plan(reference.as_str(), Method::Get, Payload::Empty)
    }

    /// Downloads the leaderboard of a competition, to `target` or to
    /// `{id}-leaderboard.zip` in the download directory.
    pub fn competition_download_leaderboard(&self, id: &str, target: Option<&str>) -> (r: Result<
        Download,
        KaggleError,
    >)
        ensures
            download_view(r) == download_spec(
                self@.base_url,
                leaderboard_download_path_spec(id@),
                opt_str_view(target),
                leaderboard_archive_name_spec(id@),
            ),
    {
        let reference = leaderboard_download_path(id);
        self.plan_download(reference.as_str(), target, leaderboard_archive_name(id))
    }

    /// Views the leaderboard of a competition.
    pub fn competition_view_leaderboard(&self, id: &str) -> (r: Result<Request, KaggleError>)
        ensures
            request_view(r) == plan_spec(
                self@.base_url,
                leaderboard_view_path_spec(id@),
                Method::Get,
                PayloadView::Empty,
            ),
    {
        let reference = leaderboard_view_path(id);
        self.plan(reference.as_str(), Method::Get, Payload::Empty)
    }

    /// Downloads one data file of a competition, to `target` or to
    /// `{id}.zip` in the download directory.
    pub fn competitions_data_download_file(
        &self,
        id: &str,
        file_name: &str,
        target: Option<&str>,
    ) -> (r: Result<Download, KaggleError>)
        ensures
            download_view(r) == download_spec(
                self@.base_url,
                data_download_file_path_spec(id@, file_name@),
                opt_str_view(target),
                data_archive_name_spec(id@),
            ),
    {
        let reference = data_download_file_path(id, file_name);
        self.plan_download(reference.as_str(), target, data_archive_name(id))
    }

    /// Downloads all data files of a competition, to `target` or to
    /// `{id}.zip` in the download directory.
    pub fn competitions_data_download_files(&self, id: &str, target: Option<&str>) -> (r: Result<
        Download,
        KaggleError,
    >)
        ensures
            download_view(r) == download_spec(
                self@.base_url,
                data_download_all_path_spec(id@),
                opt_str_view(target),
                data_archive_name_spec(id@),
            ),
    {
        let reference = data_download_all_path(id);
        self.plan_download(reference.as_str(), target, data_archive_name(id))
    }

    /// Lists the data files of a competition.
    pub fn competitions_data_list_files(&self, id: &str) -> (r: Result<Request, KaggleError>)
        ensures
            request_view(r) == plan_spec(
                self@.base_url,
                data_list_path_spec(id@),
                Method::Get,
                PayloadView::Empty,
            ),
    {
        let reference = data_list_path(id);
        self.plan(reference.as_str(), Method::Get, Payload::Empty)
    }

    /// Lists one page of the submissions to a competition.
    pub fn competitions_submissions_list(&self, id: &str, page: u64) -> (r: Result<
        Request,
        KaggleError,
    >)
        ensures
            request_view(r) == plan_spec(
                self@.base_url,
                with_query(
                    submissions_list_path_spec(id@),
                    seq![("page"@, decimal_text(page as nat))],
                ),
                Method::Get,
                PayloadView::Empty,
            ),
    {
        let number = render_u64(page);
        let mut pairs: Vec<FormField> = Vec::new();
        pairs.push(form_field("page", number.as_str()));
        assert(field_pairs(pairs@) =~= seq![("page"@, decimal_text(page as nat))]);
        let path = submissions_list_path(id);
        let reference = append_query(path.as_str(), &pairs);
        self.plan(reference.as_str(), Method::Get, Payload::Empty)
    }

    /// Finalizes a submission: a POST of the upload token and the message.
    pub fn competitions_submissions_submit(
        &self,
        id: &str,
        blob_file_tokens: &str,
        submission_description: &str,
    ) -> (r: Result<Request, KaggleError>)
        ensures
            request_view(r) == plan_spec(
                self@.base_url,
                submission_submit_path_spec(id@),
                Method::Post,
                PayloadView::Form(
                    seq![
                        ("blobFileTokens"@, blob_file_tokens@),
                        ("submissionDescription"@, submission_description@),
                    ],
                ),
            ),
    {
        let mut fields: Vec<FormField> = Vec::new();
        fields.push(form_field("blobFileTokens", blob_file_tokens));
        fields.push(form_field("submissionDescription", submission_description));
        assert(field_pairs(fields@) =~= seq![
            ("blobFileTokens"@, blob_file_tokens@),
            ("submissionDescription"@, submission_description@),
        ]);
        let reference = submission_submit_path(id);
        self.plan(reference.as_str(), Method::Post, Payload::Form(fields))
    }

    /// Streams the file to a URL that the service handed out: a PUT of the
    /// bytes as they are, to that URL as it is.
    pub fn upload_complete(&self, url: &str) -> (r: Request)
        ensures
            r@ == (RequestView {
                method: Method::Put,
                url: url@,
                payload: PayloadView::FileStream,
            }),
    {
        Request { method: Method::Put, url: url.to_owned(), payload: Payload::FileStream }
    }

    /// Uploads a submission file by its guid: a POST with the file streamed
    /// as the form part `file`.
    pub fn competitions_submissions_upload(
        &self,
        guid: &str,
        content_length: u64,
        last_modified_secs: u64,
    ) -> (r: Result<Request, KaggleError>)
        ensures
            request_view(r) == plan_spec(
                self@.base_url,
                submission_upload_path_spec(guid@, content_length, last_modified_secs),
                Method::Post,
                PayloadView::FilePart("file"@),
            ),
    {
        let reference = submission_upload_path(guid, content_length, last_modified_secs);
        self.plan(reference.as_str(), Method::Post, Payload::FilePart("file".to_owned()))
    }

    /// Negotiates the URL for a submission: a POST with the file name as the
    /// form field `fileName`.
    pub fn competitions_submissions_url(
        &self,
        id: &str,
        content_length: u64,
        last_modified_secs: u64,
        file_name: &str,
    ) -> (r: Result<Request, KaggleError>)
        ensures
            request_view(r) == plan_spec(
                self@.base_url,
                submission_url_path_spec(id@, content_length, last_modified_secs),
                Method::Post,
                PayloadView::Form(seq![("fileName"@, file_name@)]),
            ),
    {
        let mut fields: Vec<FormField> = Vec::new();
        fields.push(form_field("fileName", file_name));
        assert(field_pairs(fields@) =~= seq![("fileName"@, file_name@)]);
        let reference = submission_url_path(id, content_length, last_modified_secs);
        self.plan(reference.as_str(), Method::Post, Payload::Form(fields))
    }

    /// Negotiates the upload of one file of a dataset. `stat` is what the file
    /// system says of `path`, or `None` where the path does not exist, which
    /// fails with `FileNotFound` and the path.
    pub fn upload_file(&self, path: &str, stat: Option<FileStat>, file_name: &str) -> (r: Result<
        Request,
        KaggleError,
    >)
        ensures
            match stat {
                Some(stat) => request_view(r) == plan_spec(
                    self@.base_url,
                    dataset_upload_path_spec(stat.content_length, stat.last_modified_secs),
                    Method::Post,
                    PayloadView::Form(seq![("fileName"@, file_name@)]),
                ),
                None => r matches Err(KaggleError::FileNotFound(missing)) && missing@ == path@,
            },
    {
        match stat {
            Some(stat) => self.datasets_upload_file(
                file_name,
                stat.content_length,
                stat.last_modified_secs,
            ),
            None => Err(KaggleError::FileNotFound(path.to_owned())),
        }
    }

    /// Starts the upload of the files in a dataset folder.
    pub fn upload_files(&self, resources: Vec<Resource>, archive_mode: ArchiveMode) -> (r:
        DirectoryUpload)
        ensures
            r@ == (DirectoryUploadView {
                resources: resource_views(resources@),
                uploads: Seq::empty(),
                pending: None,
                archive_mode,
            }),
    {
        DirectoryUpload::new(resources, archive_mode)
    }

    /// Negotiates the upload of a dataset file: a POST with the file name as
    /// the form field `fileName`.
    pub fn datasets_upload_file(
        &self,
        file_name: &str,
        content_length: u64,
        last_modified_secs: u64,
    ) -> (r: Result<Request, KaggleError>)
        ensures
            request_view(r) == plan_spec(
                self@.base_url,
                dataset_upload_path_spec(content_length, last_modified_secs),
                Method::Post,
                PayloadView::Form(seq![("fileName"@, file_name@)]),
            ),
    {
        let mut fields: Vec<FormField> = Vec::new();
        fields.push(form_field("fileName", file_name));
        assert(field_pairs(fields@) =~= seq![("fileName"@, file_name@)]);
        let reference = dataset_upload_path(content_length, last_modified_secs);
        self.plan(reference.as_str(), Method::Post, Payload::Form(fields))
    }
}

} // verus!
