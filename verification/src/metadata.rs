//! The description of a dataset: which file holds it, and whether it is fit
//! for upload.

use vstd::prelude::*;
use vstd::string::*;
use vstd::utf8::encode_utf8;
use crate::client::KaggleApiClient;
use crate::error::{KaggleError, MetadataIssue};
use crate::json::text_view;
use crate::text::{str_eq, to_chars};
use crate::upload::{
    resource_views, ArchiveMode, DirectoryUpload, DirectoryUploadView, Resource,
};

verus! {

/// What the file system says of a path.
#[derive(Debug, Clone, PartialEq, Eq)]
pub struct PathProbe {
    pub path: String,
    pub exists: bool,
    pub is_dir: bool,
}

/// The file that describes the dataset, for a path that the caller gave:
/// the path itself where it is no directory, else the description file in
/// it, the one under the current name before the one under the old name.
/// The error names the path that was looked for first.
pub open spec fn metadata_file_spec(given: PathProbe, current: PathProbe, legacy: PathProbe) -> Result<
    Seq<char>,
    Seq<char>,
> {
    if given.is_dir {
        if current.exists {
            Ok(current.path@)
        } else if legacy.exists {
            Ok(legacy.path@)
        } else {
            Err(current.path@)
        }
    } else if given.exists {
        Ok(given.path@)
    } else {
        Err(given.path@)
    }
}

/// The dataset description, as far as it is checked before an upload.
#[derive(Debug, Clone, PartialEq, Eq)]
pub struct DatasetMetadata {
    /// The owner part of the dataset id.
    pub owner_slug: Option<String>,
    /// The dataset part of the dataset id.
    pub dataset_slug: Option<String>,
    pub title: String,
    pub subtitle: Option<String>,
    pub licenses: Vec<String>,
    pub resources: Vec<Resource>,
}

/// The place of the first slash in a text, or its length where it has none.
pub open spec fn first_slash(s: Seq<char>) -> int
    decreases s.len(),
{
    if s.len() == 0 || s[0] == '/' {
        0
    } else {
        1 + first_slash(s.drop_first())
    }
}

/// A text that is not empty.
pub open spec fn filled(s: Seq<char>) -> Option<Seq<char>> {
    if s.len() == 0 {
        None
    } else {
        Some(s)
    }
}

/// The owner part of a dataset id `owner/dataset`: what stands before the
/// first slash, where that is not empty.
pub open spec fn owner_slug_spec(id: Seq<char>) -> Option<Seq<char>> {
    filled(id.take(first_slash(id)))
}

/// The dataset part of a dataset id `owner/dataset`: what stands between the
/// first slash and the next, or the end, where that is not empty.
pub open spec fn dataset_slug_spec(id: Seq<char>) -> Option<Seq<char>> {
    let rest = id.skip(first_slash(id) + 1);
    if first_slash(id) < id.len() {
        filled(rest.take(first_slash(rest)))
    } else {
        None
    }
}

/// The first slash stands where no slash stands before it.
pub proof fn lemma_first_slash(s: Seq<char>, i: int)
    requires
        0 <= i <= s.len(),
        forall|k: int| 0 <= k < i ==> #[trigger] s[k] != '/',
        i == s.len() || s[i] == '/',
    ensures
        first_slash(s) == i,
    decreases i,
{
    if i > 0 {
        let rest = s.drop_first();
        assert forall|k: int| 0 <= k < i - 1 implies #[trigger] rest[k] != '/' by {
            assert(rest[k] == s[k + 1]);
        }
        lemma_first_slash(rest, i - 1);
    }
}

/// Finds the first slash from `from` on.
fn find_slash(chars: &Vec<char>, from: usize) -> (r: usize)
    requires
        from <= chars.len(),
    ensures
        from <= r <= chars.len(),
        r - from == first_slash(chars@.skip(from as int)),
{
    let mut i: usize = from;
    while i < chars.len() && chars[i] != '/'
        invariant
            from <= i <= chars.len(),
            forall|k: int| from <= k < i ==> #[trigger] chars@[k] != '/',
        decreases chars.len() - i,
    {
        i = i + 1;
    }
    proof {
        let rest = chars@.skip(from as int);
        assert forall|k: int| 0 <= k < i - from implies #[trigger] rest[k] != '/' by {
            assert(rest[k] == chars@[from + k]);
        }
        lemma_first_slash(rest, i - from);
    }
    i
}

/// The two parts of a dataset id `owner/dataset`.
pub fn split_dataset_id(id: &str) -> (r: (Option<String>, Option<String>))
    ensures
        text_view(r.0) == owner_slug_spec(id@),
        text_view(r.1) == dataset_slug_spec(id@),
{
    let chars = to_chars(id);
    let n = chars.len();
    assert(chars@.skip(0) =~= id@);
    let first = find_slash(&chars, 0);
    let owner = if first == 0 {
        None
    } else {
        Some(id.substring_char(0, first).to_owned())
    };
    if first == n {
        return (owner, None);
    }
    let second = find_slash(&chars, first + 1);
    let dataset = if second == first + 1 {
        None
    } else {
        Some(id.substring_char(first + 1, second).to_owned())
    };
    (owner, dataset)
}

/// The text that a description holds where its author is to put a slug or a
/// title.
pub open spec fn template_text() -> Seq<char> {
    "INSERT_SLUG_HERE"@
}

/// Whether a text has between `low` and `high` bytes.
pub open spec fn byte_length_within(text: Seq<char>, low: int, high: int) -> bool {
    low <= encode_utf8(text).len() <= high
}

/// The first thing that is wrong with a description, if anything is. The
/// checks go in this order: the two parts of the id are there; neither the
/// dataset slug nor the title is the template text; there is exactly one
/// license; the slug and the title have 6 to 50 bytes; a subtitle has 20 to
/// 80 bytes.
pub open spec fn metadata_issue(metadata: DatasetMetadata) -> Option<MetadataIssue> {
    if metadata.owner_slug.is_none() {
        Some(MetadataIssue::MissingOwnerSlug)
    } else if metadata.dataset_slug.is_none() {
        Some(MetadataIssue::MissingDatasetSlug)
    } else if metadata.dataset_slug.unwrap()@ == template_text() {
        Some(MetadataIssue::DefaultSlug)
    } else if metadata.title@ == template_text() {
        Some(MetadataIssue::DefaultTitle)
    } else if metadata.licenses@.len() != 1 {
        Some(MetadataIssue::LicenseCount)
    } else if !byte_length_within(metadata.dataset_slug.unwrap()@, 6, 50) {
        Some(MetadataIssue::SlugLength)
    } else if !byte_length_within(metadata.title@, 6, 50) {
        Some(MetadataIssue::TitleLength)
    } else if metadata.subtitle.is_some() && !byte_length_within(
        metadata.subtitle.unwrap()@,
        20,
        80,
    ) {
        Some(MetadataIssue::SubtitleLength)
    } else {
        None
    }
}

/// Whether a text has between `low` and `high` bytes.
fn length_within(text: &str, low: usize, high: usize) -> (r: bool)
    ensures
        r == byte_length_within(text@, low as int, high as int),
{
    let n = text.as_bytes().len();
    low <= n && n <= high
}

/// Picks the file that describes the dataset. `given` is the path that the
/// caller named; `current` and `legacy` are the description files under the
/// current and the old name in it, probed where `given` is a directory.
pub fn get_dataset_metadata_file(given: &PathProbe, current: &PathProbe, legacy: &PathProbe) -> (r:
    Result<String, KaggleError>)
    ensures
        match metadata_file_spec(*given, *current, *legacy) {
            Ok(path) => r matches Ok(found) && found@ == path,
            Err(path) => r matches Err(KaggleError::FileNotFound(missing)) && missing@ == path,
        },
{
    if given.is_dir {
        if current.exists {
            Ok(current.path.clone())
        } else if legacy.exists {
            Ok(legacy.path.clone())
        } else {
            Err(KaggleError::FileNotFound(current.path.clone()))
        }
    } else if given.exists {
        Ok(given.path.clone())
    } else {
        Err(KaggleError::FileNotFound(given.path.clone()))
    }
}

impl DatasetMetadata {
    /// The description of the dataset with this id, which has the form
    /// `owner/dataset`.
    pub fn new(
        id: &str,
        title: String,
        subtitle: Option<String>,
        licenses: Vec<String>,
        resources: Vec<Resource>,
    ) -> (r: DatasetMetadata)
        ensures
            text_view(r.owner_slug) == owner_slug_spec(id@),
            text_view(r.dataset_slug) == dataset_slug_spec(id@),
            r.title == title,
            r.subtitle == subtitle,
            r.licenses == licenses,
            r.resources == resources,
    {
        let (owner_slug, dataset_slug) = split_dataset_id(id);
        DatasetMetadata { owner_slug, dataset_slug, title, subtitle, licenses, resources }
    }

    /// Checks the description before an upload.
    pub fn validate(&self) -> (r: Result<(), KaggleError>)
        ensures
            match metadata_issue(*self) {
                Some(issue) => r == Err::<(), KaggleError>(KaggleError::Metadata(issue)),
                None => r == Ok::<(), KaggleError>(()),
            },
    {
        if self.owner_slug.is_none() {
            return Err(KaggleError::Metadata(MetadataIssue::MissingOwnerSlug));
        }
        let dataset_slug = match &self.dataset_slug {
            Some(slug) => slug,
            None => return Err(KaggleError::Metadata(MetadataIssue::MissingDatasetSlug)),
        };
        if str_eq(dataset_slug.as_str(), "INSERT_SLUG_HERE") {
            return Err(KaggleError::Metadata(MetadataIssue::DefaultSlug));
        }
        if str_eq(self.title.as_str(), "INSERT_SLUG_HERE") {
            return Err(KaggleError::Metadata(MetadataIssue::DefaultTitle));
        }
        if self.licenses.len() != 1 {
            return Err(KaggleError::Metadata(MetadataIssue::LicenseCount));
        }
        if !length_within(dataset_slug.as_str(), 6, 50) {
            return Err(KaggleError::Metadata(MetadataIssue::SlugLength));
        }
        if !length_within(self.title.as_str(), 6, 50) {
            return Err(KaggleError::Metadata(MetadataIssue::TitleLength));
        }
        if let Some(subtitle) = &self.subtitle {
            if !length_within(subtitle.as_str(), 20, 80) {
                return Err(KaggleError::Metadata(MetadataIssue::SubtitleLength));
            }
        }
        Ok(())
    }
}

impl KaggleApiClient {
    /// Creates a new dataset from a description: the description is checked,
    /// and the walk over the dataset folder that uploads its files is
    /// started with the resources that the description declares.
    pub fn dataset_create_new(&self, metadata: DatasetMetadata, archive_mode: ArchiveMode) -> (r:
        Result<DirectoryUpload, KaggleError>)
        ensures
            match metadata_issue(metadata) {
                Some(issue) => r matches Err(error) && error == KaggleError::Metadata(issue),
                None => r matches Ok(walk) && walk@ == (DirectoryUploadView {
                    resources: resource_views(metadata.resources@),
                    uploads: Seq::empty(),
                    pending: None,
                    archive_mode,
                }),
            },
    {
        match metadata.validate() {
            Err(error) => Err(error),
            Ok(()) => Ok(self.upload_files(metadata.resources, archive_mode)),
        }
    }
}

} // verus!
