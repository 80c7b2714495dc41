//! Uploading dataset files: the answer to a negotiation, the file handle that
//! is made of it, and the walk over a dataset folder.

use vstd::prelude::*;
use vstd::string::*;
use crate::client::{plan_spec, KaggleApiClient};
use crate::endpoint::dataset_upload_path_spec;
use crate::error::KaggleError;
use crate::json::{text_view, JsonDocument, ObjectView};
use crate::request::{Method, PayloadView, Request, RequestView};
use crate::text::str_eq;
use crate::transport::{document_spec, execute_json, Response};

verus! {

/// What the file system says of a file: its size in bytes, and when it was
/// last modified, in seconds since the Unix epoch.
#[derive(Debug, Clone, Copy, PartialEq, Eq, Structural)]
pub struct FileStat {
    pub content_length: u64,
    pub last_modified_secs: u64,
}

/// One column of a data file.
#[derive(Debug, Clone, PartialEq, Eq)]
pub struct DatasetColumn {
    pub name: String,
    pub description: Option<String>,
    pub column_type: Option<String>,
}

/// A column with its texts as sequences of characters.
pub struct ColumnView {
    pub name: Seq<char>,
    pub description: Option<Seq<char>>,
    pub column_type: Option<Seq<char>>,
}

impl View for DatasetColumn {
    type V = ColumnView;

    open spec fn view(&self) -> ColumnView {
        ColumnView {
            name: self.name@,
            description: text_view(self.description),
            column_type: text_view(self.column_type),
        }
    }
}

/// The columns of a list, in order.
pub open spec fn column_views(columns: Seq<DatasetColumn>) -> Seq<ColumnView> {
    columns.map_values(|column: DatasetColumn| column@)
}

/// The columns of an optional list.
pub open spec fn opt_column_views(columns: Option<Vec<DatasetColumn>>) -> Option<Seq<ColumnView>> {
    match columns {
        Some(list) => Some(column_views(list@)),
        None => None,
    }
}

/// The schema of a data file: its columns, in order.
#[derive(Debug, Clone, PartialEq, Eq)]
pub struct Schema {
    pub fields: Vec<DatasetColumn>,
}

/// What the dataset description declares of one file.
#[derive(Debug, Clone, PartialEq, Eq)]
pub struct Resource {
    /// The name of the file in the dataset folder.
    pub path: String,
    pub description: Option<String>,
    pub schema: Option<Schema>,
}

/// A resource with its texts as sequences of characters.
pub struct ResourceView {
    pub path: Seq<char>,
    pub description: Option<Seq<char>>,
    pub columns: Option<Seq<ColumnView>>,
}

impl View for Resource {
    type V = ResourceView;

    open spec fn view(&self) -> ResourceView {
        ResourceView {
            path: self.path@,
            description: text_view(self.description),
            columns: match self.schema {
                Some(schema) => Some(column_views(schema.fields@)),
                None => None,
            },
        }
    }
}

/// The resources of a list, in order.
pub open spec fn resource_views(resources: Seq<Resource>) -> Seq<ResourceView> {
    resources.map_values(|resource: Resource| resource@)
}

/// An upload that the service has agreed to: the token that later calls
/// refer to. It cannot be copied: the file handle that is made of it uses
/// it up.
#[derive(Debug, PartialEq, Eq)]
pub struct UploadSessionInfo {
    pub token: String,
}

/// An uploaded file as the dataset calls refer to it.
#[derive(Debug, Clone, PartialEq, Eq)]
pub struct DatasetUploadFile {
    pub token: String,
    pub description: Option<String>,
    pub columns: Option<Vec<DatasetColumn>>,
}

/// An uploaded file with its texts as sequences of characters.
pub struct UploadFileView {
    pub token: Seq<char>,
    pub description: Option<Seq<char>>,
    pub columns: Option<Seq<ColumnView>>,
}

impl View for DatasetUploadFile {
    type V = UploadFileView;

    open spec fn view(&self) -> UploadFileView {
        UploadFileView {
            token: self.token@,
            description: text_view(self.description),
            columns: opt_column_views(self.columns),
        }
    }
}

/// The uploaded files of a list, in order.
pub open spec fn upload_views(uploads: Seq<DatasetUploadFile>) -> Seq<UploadFileView> {
    uploads.map_values(|upload: DatasetUploadFile| upload@)
}

/// Whether `i` is the last place in `resources` whose path is `file_name`.
pub open spec fn last_match(resources: Seq<ResourceView>, file_name: Seq<char>, i: int) -> bool {
    &&& 0 <= i < resources.len()
    &&& resources[i].path == file_name
    &&& forall|j: int| i < j < resources.len() ==> (#[trigger] resources[j]).path != file_name
}

/// The resource that describes the file of this name: the last one declared
/// under it, if any.
pub open spec fn matching_resource(resources: Seq<ResourceView>, file_name: Seq<char>) -> Option<
    int,
> {
    if exists|i: int| last_match(resources, file_name, i) {
        Some(choose|i: int| last_match(resources, file_name, i))
    } else {
        None
    }
}

/// The file handle for a token: bare where no resource describes the file,
/// else with the description and the columns of the resource.
pub open spec fn upload_file_spec(token: Seq<char>, item: Option<ResourceView>) -> UploadFileView {
    match item {
        Some(resource) => UploadFileView {
            token,
            description: resource.description,
            columns: resource.columns,
        },
        None => UploadFileView { token, description: None, columns: None },
    }
}

/// The token that a decoded answer to a negotiation carries. A document
/// that is not an object with a text under `token` gives `Decode`; an empty
/// token gives `MissingToken`.
pub open spec fn document_token_spec(document: Option<ObjectView>) -> Result<
    Seq<char>,
    KaggleError,
> {
    match document {
        Some(object) => if object.contains_key("token"@) {
            match object["token"@] {
                Some(token) => if token.len() == 0 {
                    Err(KaggleError::MissingToken)
                } else {
                    Ok(token)
                },
                None => Err(KaggleError::Decode),
            }
        } else {
            Err(KaggleError::Decode)
        },
        None => Err(KaggleError::Decode),
    }
}

/// The token that the answer to a negotiation carries. An answer that the
/// service refused gives its refusal, and a body that is not JSON gives
/// `Decode`.
pub open spec fn session_token_spec(response: Response) -> Result<Seq<char>, KaggleError> {
    match document_spec(response) {
        Ok(document) => document_token_spec(document),
        Err(error) => Err(error),
    }
}

/// The token of a session, or the error.
pub open spec fn session_view(r: Result<UploadSessionInfo, KaggleError>) -> Result<
    Seq<char>,
    KaggleError,
> {
    match r {
        Ok(info) => Ok(info.token@),
        Err(error) => Err(error),
    }
}

/// A copy of an optional text.
pub fn copy_text(text: &Option<String>) -> (r: Option<String>)
    ensures
        text_view(r) == text_view(*text),
{
    match text {
        Some(t) => Some(t.clone()),
        None => None,
    }
}

impl Schema {
    /// The columns of the schema as the upload carries them, in order.
    pub fn get_processed_columns(&self) -> (r: Vec<DatasetColumn>)
        ensures
            column_views(r@) == column_views(self.fields@),
    {
        let mut out: Vec<DatasetColumn> = Vec::new();
        let mut i: usize = 0;
        while i < self.fields.len()
            invariant
                i <= self.fields.len(),
                out@.len() == i,
                column_views(out@) == column_views(self.fields@.subrange(0, i as int)),
            decreases self.fields.len() - i,
        {
            let field = &self.fields[i];
            let column = DatasetColumn {
                name: field.name.clone(),
                description: copy_text(&field.description),
                column_type: copy_text(&field.column_type),
            };
            let ghost before = out@;
            out.push(column);
            assert forall|k: int| 0 <= k < out@.len() implies column_views(out@)[k]
                == column_views(self.fields@.subrange(0, i as int + 1))[k] by {
                if k < i {
                    assert(column_views(before)[k] == column_views(
                        self.fields@.subrange(0, i as int),
                    )[k]);
                }
            }
            assert(column_views(out@) =~= column_views(
                self.fields@.subrange(0, i as int + 1),
            ));
            i = i + 1;
        }
        out
    }
}

impl UploadSessionInfo {
    /// Reads the answer to a negotiation.
    pub fn from_response(response: Response) -> (r: Result<UploadSessionInfo, KaggleError>)
        ensures
            session_view(r) == session_token_spec(response),
    {
        match execute_json(response) {
            Ok(document) => UploadSessionInfo::from_document(document),
            Err(error) => Err(error),
        }
    }

    /// Reads the decoded answer to a negotiation.
    pub fn from_document(document: JsonDocument) -> (r: Result<UploadSessionInfo, KaggleError>)
        ensures
            session_view(r) == document_token_spec(document@),
    {
        match document {
            JsonDocument::Other => Err(KaggleError::Decode),
            JsonDocument::Object(object) => {
                if !object.contains_key("token") {
                    return Err(KaggleError::Decode);
                }
                match object.get_str("token") {
                    None => Err(KaggleError::Decode),
                    Some(token) => {
                        if token.as_str().is_empty() {
                            Err(KaggleError::MissingToken)
                        } else {
                            Ok(UploadSessionInfo { token })
                        }
                    },
                }
            },
        }
    }
}

impl DatasetUploadFile {
    /// A file handle with the token and nothing else.
    pub fn new(token: String) -> (r: DatasetUploadFile)
        ensures
            r@ == upload_file_spec(token@, None),
    {
        DatasetUploadFile { token, description: None, columns: None }
    }

    /// Sets the description.
    pub fn set_description(&mut self, description: Option<String>)
        ensures
            final(self)@ == (UploadFileView {
                description: text_view(description),
                ..old(self)@
            }),
    {
        self.description = description;
    }

    /// Sets the columns.
    pub fn set_columns(&mut self, columns: Vec<DatasetColumn>)
        ensures
            final(self)@ == (UploadFileView {
                columns: Some(column_views(columns@)),
                ..old(self)@
            }),
    {
        self.columns = Some(columns);
    }

    /// The file handle for a negotiated upload. The description and the
    /// columns are set only from a resource that is given, and then as the
    /// resource has them.
    pub fn from_session(info: UploadSessionInfo, item: Option<&Resource>) -> (r:
        DatasetUploadFile)
        ensures
            r@ == upload_file_spec(
                info.token@,
                match item {
                    Some(resource) => Some(resource@),
                    None => None,
                },
            ),
    {
        let mut upload_file = DatasetUploadFile::new(info.token);
        if let Some(resource) = item {
            upload_file.set_description(copy_text(&resource.description));
            if let Some(schema) = &resource.schema {
                upload_file.set_columns(schema.get_processed_columns());
            }
        }
        upload_file
    }
}

/// Finds the resource that describes the file of this name: the last one
/// declared under it.
pub fn find_resource(resources: &Vec<Resource>, file_name: &str) -> (r: Option<usize>)
    ensures
        match matching_resource(resource_views(resources@), file_name@) {
            Some(i) => r == Some(i as usize) && i < resources.len(),
            None => r.is_none(),
        },
{
    let ghost views = resource_views(resources@);
    let mut i: usize = resources.len();
    while i > 0
        invariant
            i <= resources.len(),
            views == resource_views(resources@),
            forall|j: int| i <= j < resources.len() ==> (#[trigger] views[j]).path != file_name@,
        decreases i,
    {
        i = i - 1;
        if str_eq(resources[i].path.as_str(), file_name) {
            assert(last_match(views, file_name@, i as int));
            let ghost chosen = choose|k: int| last_match(views, file_name@, k);
            assert(chosen == i);
            return Some(i);
        }
    }
    None
}

/// How a sub-directory of a dataset folder is packaged before it is uploaded
/// as one file.
#[derive(Debug, Clone, Copy, PartialEq, Eq, Structural)]
pub enum ArchiveMode {
    Tar,
    Zip,
}

impl ArchiveMode {
    /// Packages the directory `from` into the file `to`. The layout of an
    /// archive is not defined for either mode, and nothing is written.
    pub fn make_archive(&self, from: &str, to: &str) {
        match self {
            ArchiveMode::Tar => {},
            ArchiveMode::Zip => {},
        }
    }
}

/// What an entry of a dataset folder is.
#[derive(Debug, Clone, Copy, PartialEq, Eq, Structural)]
pub enum EntryKind {
    /// A regular file.
    File,
    /// A sub-directory.
    Directory,
    /// Anything else.
    Other,
}

/// What the caller does for an entry of the folder.
#[derive(Debug, Clone, PartialEq, Eq)]
pub enum WalkAction {
    /// Send the request, and hand the answer to `on_answer`.
    Negotiate(Request),
    /// Package the sub-directory in the mode of the walk.
    Archive,
    /// Nothing; go on with the next entry.
    Next,
}

/// An action with its texts as sequences of characters.
pub enum WalkActionView {
    Negotiate(RequestView),
    Archive,
    Next,
}

impl View for WalkAction {
    type V = WalkActionView;

    open spec fn view(&self) -> WalkActionView {
        match self {
            WalkAction::Negotiate(request) => WalkActionView::Negotiate(request@),
            WalkAction::Archive => WalkActionView::Archive,
            WalkAction::Next => WalkActionView::Next,
        }
    }
}

/// The state of a walk over a dataset folder.
pub struct DirectoryUploadView {
    /// The resources that the dataset description declares.
    pub resources: Seq<ResourceView>,
    /// The files uploaded so far, in the order of the walk.
    pub uploads: Seq<UploadFileView>,
    /// The name of the file whose negotiation is under way, if any.
    pub pending: Option<Seq<char>>,
    pub archive_mode: ArchiveMode,
}

/// A walk over the immediate children of a dataset folder. The caller lists
/// the folder and sends the requests; the walk decides, entry by entry, and
/// collects the uploaded files.
pub struct DirectoryUpload {
    resources: Vec<Resource>,
    uploads: Vec<DatasetUploadFile>,
    pending: Option<String>,
    archive_mode: ArchiveMode,
}

impl View for DirectoryUpload {
    type V = DirectoryUploadView;

    closed spec fn view(&self) -> DirectoryUploadView {
        DirectoryUploadView {
            resources: resource_views(self.resources@),
            uploads: upload_views(self.uploads@),
            pending: text_view(self.pending),
            archive_mode: self.archive_mode,
        }
    }
}

/// The resource of a list that describes the file of this name, if any.
pub open spec fn resource_for(resources: Seq<ResourceView>, file_name: Seq<char>) -> Option<
    ResourceView,
> {
    match matching_resource(resources, file_name) {
        Some(i) => Some(resources[i]),
        None => None,
    }
}

/// The request that negotiates the upload of a file.
pub open spec fn negotiation_spec(base: Seq<char>, file_name: Seq<char>, stat: FileStat) -> Result<
    RequestView,
    KaggleError,
> {
    plan_spec(
        base,
        dataset_upload_path_spec(stat.content_length, stat.last_modified_secs),
        Method::Post,
        PayloadView::Form(seq![("fileName"@, file_name)]),
    )
}

/// What a walk does with an entry whose file, where it is one, exists: a
/// regular file is negotiated, a sub-directory is to be packaged, anything
/// else is passed over. An entry that comes while an answer is awaited is out
/// of sequence.
pub open spec fn entry_spec(
    state: DirectoryUploadView,
    base: Seq<char>,
    file_name: Seq<char>,
    kind: EntryKind,
    stat: FileStat,
) -> (DirectoryUploadView, Result<WalkActionView, KaggleError>) {
    if state.pending.is_some() {
        (state, Err(KaggleError::OutOfSequence))
    } else {
        match kind {
            EntryKind::File => match negotiation_spec(base, file_name, stat) {
                Ok(request) => (
                    DirectoryUploadView { pending: Some(file_name), ..state },
                    Ok(WalkActionView::Negotiate(request)),
                ),
                Err(error) => (state, Err(error)),
            },
            EntryKind::Directory => (state, Ok(WalkActionView::Archive)),
            EntryKind::Other => (state, Ok(WalkActionView::Next)),
        }
    }
}

/// What a walk does with the outcome of a negotiation: the file handle for
/// the token is put behind those collected. An outcome that comes while none
/// is awaited is out of sequence.
pub open spec fn session_spec(state: DirectoryUploadView, session: Result<Seq<char>, KaggleError>) -> (
    DirectoryUploadView,
    Result<(), KaggleError>,
) {
    match state.pending {
        None => (state, Err(KaggleError::OutOfSequence)),
        Some(file_name) => match session {
            Ok(token) => (
                DirectoryUploadView {
                    uploads: state.uploads.push(
                        upload_file_spec(token, resource_for(state.resources, file_name)),
                    ),
                    pending: None,
                    ..state
                },
                Ok(()),
            ),
            Err(error) => (DirectoryUploadView { pending: None, ..state }, Err(error)),
        },
    }
}

/// What a walk does with the answer to a negotiation.
pub open spec fn answer_spec(state: DirectoryUploadView, response: Response) -> (
    DirectoryUploadView,
    Result<(), KaggleError>,
) {
    session_spec(state, session_token_spec(response))
}

/// An action, or the error, with texts as sequences of characters.
pub open spec fn action_view(r: Result<WalkAction, KaggleError>) -> Result<
    WalkActionView,
    KaggleError,
> {
    match r {
        Ok(action) => Ok(action@),
        Err(error) => Err(error),
    }
}

impl DirectoryUpload {
    /// A walk that has seen no entry yet.
    pub fn new(resources: Vec<Resource>, archive_mode: ArchiveMode) -> (r: DirectoryUpload)
        ensures
            r@ == (DirectoryUploadView {
                resources: resource_views(resources@),
                uploads: Seq::empty(),
                pending: None,
                archive_mode,
            }),
    {
        let r = DirectoryUpload {
            resources,
            uploads: Vec::new(),
            pending: None,
            archive_mode,
        };
        assert(upload_views(r.uploads@) =~= Seq::empty());
        r
    }

    /// The mode in which sub-directories are packaged.
    pub fn archive_mode(&self) -> (r: ArchiveMode)
        ensures
            r == self@.archive_mode,
    {
        self.archive_mode
    }

    /// Decides what to do for one entry of the folder. `stat` is what the
    /// file system says of the entry, or `None` where the path does not
    /// exist; a regular file that does not exist fails with `FileNotFound`
    /// and its path.
    pub fn on_entry(
        &mut self,
        client: &KaggleApiClient,
        path: &str,
        file_name: &str,
        kind: EntryKind,
        stat: Option<FileStat>,
    ) -> (r: Result<WalkAction, KaggleError>)
        ensures
            match stat {
                Some(stat) => (final(self)@, action_view(r)) == entry_spec(
                    old(self)@,
                    client@.base_url,
                    file_name@,
                    kind,
                    stat,
                ),
                None => {
                    &&& final(self)@ == old(self)@
                    &&& if old(self)@.pending.is_some() {
                        r == Err::<WalkAction, KaggleError>(KaggleError::OutOfSequence)
                    } else {
                        match kind {
                            EntryKind::File => r matches Err(KaggleError::FileNotFound(missing))
                                && missing@ == path@,
                            EntryKind::Directory => r == Ok::<WalkAction, KaggleError>(
                                WalkAction::Archive,
                            ),
                            EntryKind::Other => r == Ok::<WalkAction, KaggleError>(
                                WalkAction::Next,
                            ),
                        }
                    }
                },
            },
    {
        if self.pending.is_some() {
            return Err(KaggleError::OutOfSequence);
        }
        match kind {
            EntryKind::File => match client.upload_file(path, stat, file_name) {
                Ok(request) => {
                    self.pending = Some(file_name.to_owned());
                    Ok(WalkAction::Negotiate(request))
                },
                Err(error) => Err(error),
            },
            EntryKind::Directory => Ok(WalkAction::Archive),
            EntryKind::Other => Ok(WalkAction::Next),
        }
    }

    /// Takes the answer to the negotiation that `on_entry` asked for.
    pub fn on_answer(&mut self, response: Response) -> (r: Result<(), KaggleError>)
        ensures
            (final(self)@, r) == answer_spec(old(self)@, response),
    {
        self.on_session(UploadSessionInfo::from_response(response))
    }

    /// Takes the outcome of the negotiation that `on_entry` asked for.
    pub fn on_session(&mut self, session: Result<UploadSessionInfo, KaggleError>) -> (r: Result<
        (),
        KaggleError,
    >)
        ensures
            (final(self)@, r) == session_spec(old(self)@, session_view(session)),
    {
        let file_name = match self.pending.take() {
            Some(name) => name,
            None => return Err(KaggleError::OutOfSequence),
        };
        match session {
            Ok(info) => {
                let upload = match find_resource(&self.resources, file_name.as_str()) {
                    Some(i) => {
                        assert(resource_views(self.resources@)[i as int]
                            == self.resources@[i as int]@);
                        DatasetUploadFile::from_session(info, Some(&self.resources[i]))
                    },
                    None => DatasetUploadFile::from_session(info, None),
                };
                let ghost before = self.uploads@;
                self.uploads.push(upload);
                assert(upload_views(self.uploads@) =~= upload_views(before).push(upload@));
                Ok(())
            },
            Err(error) => Err(error),
        }
    }

    /// The files uploaded, in the order of the walk.
    pub fn finish(self) -> (r: Vec<DatasetUploadFile>)
        ensures
            upload_views(r@) == self@.uploads,
    {
        self.uploads
    }
}

/// A folder that holds one regular file and nothing else gives exactly one
/// file handle. Its token is the one that the negotiation for that file
/// answered with; its description and columns are those of the resource that
/// describes the file, and are absent where no resource does.
pub proof fn lemma_single_file_upload(
    resources: Seq<ResourceView>,
    archive_mode: ArchiveMode,
    base: Seq<char>,
    file_name: Seq<char>,
    stat: FileStat,
    token: Seq<char>,
)
    requires
        negotiation_spec(base, file_name, stat).is_ok(),
    ensures
        ({
            let start = DirectoryUploadView {
                resources,
                uploads: Seq::empty(),
                pending: None,
                archive_mode,
            };
            let asked = entry_spec(start, base, file_name, EntryKind::File, stat);
            let answered = session_spec(asked.0, Ok(token));
            &&& asked.1 == Ok::<WalkActionView, KaggleError>(
                WalkActionView::Negotiate(negotiation_spec(base, file_name, stat).unwrap()),
            )
            &&& answered.1.is_ok()
            &&& answered.0.pending.is_none()
            &&& answered.0.uploads.len() == 1
            &&& answered.0.uploads[0] == upload_file_spec(
                token,
                resource_for(resources, file_name),
            )
            &&& answered.0.uploads[0].token == token
            &&& resource_for(resources, file_name).is_none() ==> {
                &&& answered.0.uploads[0].description.is_none()
                &&& answered.0.uploads[0].columns.is_none()
            }
        }),
{
}

/// A walk keeps what it has collected: whatever comes next, the file handles
/// collected before stand first in what is collected after, unchanged and in
/// their order, and at most one is added.
pub proof fn lemma_walk_keeps_uploads(
    state: DirectoryUploadView,
    base: Seq<char>,
    file_name: Seq<char>,
    kind: EntryKind,
    stat: FileStat,
    session: Result<Seq<char>, KaggleError>,
)
    ensures
        entry_spec(state, base, file_name, kind, stat).0.uploads == state.uploads,
        state.uploads.is_prefix_of(session_spec(state, session).0.uploads),
        session_spec(state, session).0.uploads.len() <= state.uploads.len() + 1,
        session_spec(state, session).0.resources == state.resources,
{
}

} // verus!
