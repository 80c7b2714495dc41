//! The paths of the endpoints, and the filter of the competition list.

use vstd::prelude::*;
use vstd::string::*;
use crate::locator::{joined_pairs, plain_pairs, plain_text, unchanged_char};
use crate::request::{form_field, FormField};
use crate::text::{decimal_text, render_u64};

verus! {

/// The path under which the upload of a dataset file is negotiated.
pub open spec fn dataset_upload_path_spec(content_length: u64, last_modified_secs: u64) -> Seq<
    char,
> {
    "/datasets/upload/file/"@ + decimal_text(content_length as nat) + "/"@ + decimal_text(
        last_modified_secs as nat,
    )
}

/// The path under which the URL for a competition submission is negotiated.
pub open spec fn submission_url_path_spec(
    id: Seq<char>,
    content_length: u64,
    last_modified_secs: u64,
) -> Seq<char> {
    "/competitions/"@ + id + "/submissions/url/"@ + decimal_text(content_length as nat) + "/"@
        + decimal_text(last_modified_secs as nat)
}

/// The path to which a submission file is uploaded by its guid.
pub open spec fn submission_upload_path_spec(
    guid: Seq<char>,
    content_length: u64,
    last_modified_secs: u64,
) -> Seq<char> {
    "/competitions/submissions/upload/"@ + guid + "/"@ + decimal_text(content_length as nat)
        + "/"@ + decimal_text(last_modified_secs as nat)
}

/// The path under which a submission is finalized.
pub open spec fn submission_submit_path_spec(id: Seq<char>) -> Seq<char> {
    "/competitions/submissions/submit/"@ + id
}

/// The path under which the submissions of a competition are listed.
pub open spec fn submissions_list_path_spec(id: Seq<char>) -> Seq<char> {
    "/competitions/submissions/list/"@ + id
}

/// The path from which a leaderboard is downloaded.
pub open spec fn leaderboard_download_path_spec(id: Seq<char>) -> Seq<char> {
    "/competitions/"@ + id + "/leaderboard/download"@
}

/// The path under which a leaderboard is viewed.
pub open spec fn leaderboard_view_path_spec(id: Seq<char>) -> Seq<char> {
    "/competitions/"@ + id + "/leaderboard/view"@
}

/// The path from which one data file of a competition is downloaded.
pub open spec fn data_download_file_path_spec(id: Seq<char>, file_name: Seq<char>) -> Seq<char> {
    "/competitions/data/download/"@ + id + "/"@ + file_name
}

/// The path from which all data files of a competition are downloaded.
pub open spec fn data_download_all_path_spec(id: Seq<char>) -> Seq<char> {
    "/competitions/data/download-all/"@ + id
}

/// The path under which the data files of a competition are listed.
pub open spec fn data_list_path_spec(id: Seq<char>) -> Seq<char> {
    "/competitions/data/list/"@ + id
}

/// The path, relative to the base URL, under which competitions are listed.
pub open spec fn competitions_list_path_spec() -> Seq<char> {
    "competitions/list"@
}

/// The name of the archive that holds the data of a competition.
pub open spec fn data_archive_name_spec(id: Seq<char>) -> Seq<char> {
    id + ".zip"@
}

/// The name of the archive that holds the leaderboard of a competition.
pub open spec fn leaderboard_archive_name_spec(id: Seq<char>) -> Seq<char> {
    id + "-leaderboard.zip"@
}

/// Builds the path under which the upload of a dataset file is negotiated.
pub fn dataset_upload_path(content_length: u64, last_modified_secs: u64) -> (r: String)
    ensures
        r@ == dataset_upload_path_spec(content_length, last_modified_secs),
{
    let length = render_u64(content_length);
    let seconds = render_u64(last_modified_secs);
    "/datasets/upload/file/".to_owned().concat(length.as_str()).concat("/").concat(
        seconds.as_str(),
    )
}

/// Builds the path under which the URL for a competition submission is negotiated.
pub fn submission_url_path(id: &str, content_length: u64, last_modified_secs: u64) -> (r: String)
    ensures
        r@ == submission_url_path_spec(id@, content_length, last_modified_secs),
{
    let length = render_u64(content_length);
    let seconds = render_u64(last_modified_secs);
    "/competitions/".to_owned().concat(id).concat("/submissions/url/").concat(
        length.as_str(),
    ).concat("/").concat(seconds.as_str())
}

/// Builds the path to which a submission file is uploaded by its guid.
pub fn submission_upload_path(guid: &str, content_length: u64, last_modified_secs: u64) -> (r:
    String)
    ensures
        r@ == submission_upload_path_spec(guid@, content_length, last_modified_secs),
{
    let length = render_u64(content_length);
    let seconds = render_u64(last_modified_secs);
    "/competitions/submissions/upload/".to_owned().concat(guid).concat("/").concat(
        length.as_str(),
    ).concat("/").concat(seconds.as_str())
}

/// Builds the path under which a submission is finalized.
pub fn submission_submit_path(id: &str) -> (r: String)
    ensures
        r@ == submission_submit_path_spec(id@),
{
    "/competitions/submissions/submit/".to_owned().concat(id)
}

/// Builds the path under which the submissions of a competition are listed.
pub fn submissions_list_path(id: &str) -> (r: String)
    ensures
        r@ == submissions_list_path_spec(id@),
{
    "/competitions/submissions/list/".to_owned().concat(id)
}

/// Builds the path from which a leaderboard is downloaded.
pub fn leaderboard_download_path(id: &str) -> (r: String)
    ensures
        r@ == leaderboard_download_path_spec(id@),
{
    "/competitions/".to_owned().concat(id).concat("/leaderboard/download")
}

/// Builds the path under which a leaderboard is viewed.
pub fn leaderboard_view_path(id: &str) -> (r: String)
    ensures
        r@ == leaderboard_view_path_spec(id@),
{
    "/competitions/".to_owned().concat(id).concat("/leaderboard/view")
}

/// Builds the path from which one data file of a competition is downloaded.
pub fn data_download_file_path(id: &str, file_name: &str) -> (r: String)
    ensures
        r@ == data_download_file_path_spec(id@, file_name@),
{
    "/competitions/data/download/".to_owned().concat(id).concat("/").concat(file_name)
}

/// Builds the path from which all data files of a competition are downloaded.
pub fn data_download_all_path(id: &str) -> (r: String)
    ensures
        r@ == data_download_all_path_spec(id@),
{
    "/competitions/data/download-all/".to_owned().concat(id)
}

/// Builds the path under which the data files of a competition are listed.
pub fn data_list_path(id: &str) -> (r: String)
    ensures
        r@ == data_list_path_spec(id@),
{
    "/competitions/data/list/".to_owned().concat(id)
}

/// Builds the name of the archive that holds the data of a competition.
pub fn data_archive_name(id: &str) -> (r: String)
    ensures
        r@ == data_archive_name_spec(id@),
{
    id.to_owned().concat(".zip")
}

/// Builds the name of the archive that holds the leaderboard of a competition.
pub fn leaderboard_archive_name(id: &str) -> (r: String)
    ensures
        r@ == leaderboard_archive_name_spec(id@),
{
    id.to_owned().concat("-leaderboard.zip")
}

/// The filter of the competition list. An empty text leaves a criterion open.
#[derive(Debug, Clone, PartialEq, Eq)]
pub struct CompetitionsList {
    pub group: String,
    pub category: String,
    pub sort_by: String,
    pub page: u64,
    pub search: String,
}

impl CompetitionsList {
    /// The pairs of the query for this filter, in the order in which they
    /// are sent.
    pub open spec fn query_pairs_spec(self) -> Seq<(Seq<char>, Seq<char>)> {
        seq![
            ("group"@, self.group@),
            ("category"@, self.category@),
            ("sortBy"@, self.sort_by@),
            ("page"@, decimal_text(self.page as nat)),
            ("search"@, self.search@),
        ]
    }

    /// The pairs of the query for this filter.
    pub fn query_pairs(&self) -> (r: Vec<FormField>)
        ensures
            crate::request::field_pairs(r@) == self.query_pairs_spec(),
    {
        let page = render_u64(self.page);
        let mut pairs: Vec<FormField> = Vec::new();
        pairs.push(form_field("group", self.group.as_str()));
        pairs.push(form_field("category", self.category.as_str()));
        pairs.push(form_field("sortBy", self.sort_by.as_str()));
        pairs.push(form_field("page", page.as_str()));
        pairs.push(form_field("search", self.search.as_str()));
        pairs
    }
}

/// The query of the filter that leaves every criterion open, on the first
/// page: `group=&category=&sortBy=&page=1&search=`, every part of which goes
/// into a URL as it is.
pub proof fn lemma_default_query(filter: CompetitionsList)
    requires
        filter.group@.len() == 0,
        filter.category@.len() == 0,
        filter.sort_by@.len() == 0,
        filter.page == 1,
        filter.search@.len() == 0,
    ensures
        plain_pairs(filter.query_pairs_spec()),
        joined_pairs(filter.query_pairs_spec()) == "group=&category=&sortBy=&page=1&search="@,
{
    let pairs = filter.query_pairs_spec();
    reveal_strlit("group");
    reveal_strlit("category");
    reveal_strlit("sortBy");
    reveal_strlit("page");
    reveal_strlit("search");
    reveal_strlit("=");
    reveal_strlit("&");
    reveal_strlit("group=&category=&sortBy=&page=1&search=");
    reveal_with_fuel(joined_pairs, 6);
}

impl Default for CompetitionsList {
    /// The first page, with every criterion open.
    fn default() -> (r: CompetitionsList)
        ensures
            r.group@ == Seq::<char>::empty(),
            r.category@ == Seq::<char>::empty(),
            r.sort_by@ == Seq::<char>::empty(),
            r.page == 1,
            r.search@ == Seq::<char>::empty(),
    {
        CompetitionsList {
            group: String::new(),
            category: String::new(),
            sort_by: String::new(),
            page: 1,
            search: String::new(),
        }
    }
}

} // verus!
