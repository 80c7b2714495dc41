use kaggle::auth::{Authentication, Environment};
use kaggle::client::KaggleApiClient;
use kaggle::error::{KaggleError, MetadataIssue};
use kaggle::metadata::{get_dataset_metadata_file, split_dataset_id, DatasetMetadata, PathProbe};
use kaggle::upload::{ArchiveMode, DatasetUploadFile, Resource};

fn probe(path: &str, exists: bool, is_dir: bool) -> PathProbe {
    PathProbe { path: path.to_string(), exists, is_dir }
}

fn good() -> DatasetMetadata {
    DatasetMetadata {
        owner_slug: Some("alice".to_string()),
        dataset_slug: Some("my-dataset".to_string()),
        title: "My dataset".to_string(),
        subtitle: Some("A subtitle of twenty bytes or more".to_string()),
        licenses: vec!["CC0-1.0".to_string()],
        resources: vec![Resource { path: "a.csv".to_string(), description: None, schema: None }],
    }
}

fn issue(metadata: DatasetMetadata) -> Option<KaggleError> {
    metadata.validate().err()
}

#[test]
fn a_file_is_its_own_metadata_file() {
    let current = probe("/set.json/dataset-metadata.json", false, false);
    let legacy = probe("/set.json/datapackage.json", false, false);
    assert_eq!(
        get_dataset_metadata_file(&probe("/set.json", true, false), &current, &legacy),
        Ok("/set.json".to_string())
    );
    assert_eq!(
        get_dataset_metadata_file(&probe("/set.json", false, false), &current, &legacy),
        Err(KaggleError::FileNotFound("/set.json".to_string()))
    );
}

#[test]
fn a_directory_is_searched_for_the_current_then_the_old_name() {
    let given = probe("/set", true, true);
    let current = |exists| probe("/set/dataset-metadata.json", exists, false);
    let legacy = |exists| probe("/set/datapackage.json", exists, false);
    assert_eq!(
        get_dataset_metadata_file(&given, &current(true), &legacy(true)),
        Ok("/set/dataset-metadata.json".to_string())
    );
    assert_eq!(
        get_dataset_metadata_file(&given, &current(true), &legacy(false)),
        Ok("/set/dataset-metadata.json".to_string())
    );
    assert_eq!(
        get_dataset_metadata_file(&given, &current(false), &legacy(true)),
        Ok("/set/datapackage.json".to_string())
    );
    assert_eq!(
        get_dataset_metadata_file(&given, &current(false), &legacy(false)),
        Err(KaggleError::FileNotFound("/set/dataset-metadata.json".to_string()))
    );
}

#[test]
fn a_good_description_passes() {
    assert_eq!(good().validate(), Ok(()));
    let mut no_subtitle = good();
    no_subtitle.subtitle = None;
    assert_eq!(no_subtitle.validate(), Ok(()));
}

#[test]
fn each_issue_has_its_input() {
    let mut m = good();
    m.owner_slug = None;
    assert_eq!(issue(m), Some(KaggleError::Metadata(MetadataIssue::MissingOwnerSlug)));
    let mut m = good();
    m.dataset_slug = None;
    assert_eq!(issue(m), Some(KaggleError::Metadata(MetadataIssue::MissingDatasetSlug)));
    let mut m = good();
    m.dataset_slug = Some("INSERT_SLUG_HERE".to_string());
    assert_eq!(issue(m), Some(KaggleError::Metadata(MetadataIssue::DefaultSlug)));
    let mut m = good();
    m.title = "INSERT_SLUG_HERE".to_string();
    assert_eq!(issue(m), Some(KaggleError::Metadata(MetadataIssue::DefaultTitle)));
    let mut m = good();
    m.licenses = vec![];
    assert_eq!(issue(m), Some(KaggleError::Metadata(MetadataIssue::LicenseCount)));
    let mut m = good();
    m.licenses = vec!["a".to_string(), "b".to_string()];
    assert_eq!(issue(m), Some(KaggleError::Metadata(MetadataIssue::LicenseCount)));
    let mut m = good();
    m.dataset_slug = Some("short".to_string());
    assert_eq!(issue(m), Some(KaggleError::Metadata(MetadataIssue::SlugLength)));
    let mut m = good();
    m.title = "x".repeat(51);
    assert_eq!(issue(m), Some(KaggleError::Metadata(MetadataIssue::TitleLength)));
    let mut m = good();
    m.subtitle = Some("too short".to_string());
    assert_eq!(issue(m), Some(KaggleError::Metadata(MetadataIssue::SubtitleLength)));
    let mut m = good();
    m.subtitle = Some("x".repeat(81));
    assert_eq!(issue(m), Some(KaggleError::Metadata(MetadataIssue::SubtitleLength)));
}

#[test]
fn lengths_are_counted_in_bytes_and_bounds_are_inclusive() {
    let mut m = good();
    m.dataset_slug = Some("sixsix".to_string());
    m.title = "x".repeat(50);
    m.subtitle = Some("x".repeat(20));
    assert_eq!(m.validate(), Ok(()));
    let mut m = good();
    m.subtitle = Some("x".repeat(80));
    assert_eq!(m.validate(), Ok(()));
    let mut m = good();
    m.title = "ééé".to_string();
    assert_eq!(m.validate(), Ok(()));
    let mut m = good();
    m.title = "é".repeat(26);
    assert_eq!(issue(m), Some(KaggleError::Metadata(MetadataIssue::TitleLength)));
}

#[test]
fn the_first_issue_in_order_is_reported() {
    let mut m = good();
    m.owner_slug = None;
    m.dataset_slug = None;
    m.licenses = vec![];
    assert_eq!(issue(m), Some(KaggleError::Metadata(MetadataIssue::MissingOwnerSlug)));
    let mut m = good();
    m.title = "INSERT_SLUG_HERE".to_string();
    m.licenses = vec![];
    m.dataset_slug = Some("x".to_string());
    assert_eq!(issue(m), Some(KaggleError::Metadata(MetadataIssue::DefaultTitle)));
    let mut m = good();
    m.licenses = vec![];
    m.dataset_slug = Some("x".to_string());
    assert_eq!(issue(m), Some(KaggleError::Metadata(MetadataIssue::LicenseCount)));
}

#[test]
fn messages_of_the_issues() {
    assert_eq!(MetadataIssue::MissingOwnerSlug.message(), "Missing owner slug in id");
    assert_eq!(MetadataIssue::MissingDatasetSlug.message(), "Missing dataset slug in id");
    assert_eq!(
        MetadataIssue::DefaultSlug.message(),
        "Default slug detected, please change values before uploading"
    );
    assert_eq!(
        MetadataIssue::DefaultTitle.message(),
        "Default title detected, please change values before uploading"
    );
    assert_eq!(MetadataIssue::LicenseCount.message(), "Please specify exactly one license");
    assert_eq!(
        MetadataIssue::SlugLength.message(),
        "The dataset slug must be between 6 and 50 characters"
    );
    assert_eq!(
        MetadataIssue::TitleLength.message(),
        "The dataset title must be between 6 and 50 characters"
    );
    assert_eq!(
        MetadataIssue::SubtitleLength.message(),
        "Subtitle length must be between 20 and 80 characters"
    );
}

#[test]
fn creating_a_dataset_checks_the_description_first() {
    let client = KaggleApiClient::builder()
        .auth(Authentication::with_credentials("name", "key"))
        .download_dir("/data")
        .build(
            &Environment { user_name: None, key: None, config_dir: None, home_config: None },
            None,
            None,
        )
        .unwrap();
    let mut bad = good();
    bad.licenses = vec![];
    assert_eq!(
        client.dataset_create_new(bad, ArchiveMode::Zip).err(),
        Some(KaggleError::Metadata(MetadataIssue::LicenseCount))
    );
    let walk = client.dataset_create_new(good(), ArchiveMode::Tar).unwrap();
    assert_eq!(walk.archive_mode(), ArchiveMode::Tar);
    assert_eq!(walk.finish(), Vec::<DatasetUploadFile>::new());
}

#[test]
fn dataset_id_is_split_at_its_first_slash() {
    let both = |owner: &str, dataset: &str| (Some(owner.to_string()), Some(dataset.to_string()));
    assert_eq!(split_dataset_id("alice/my-dataset"), both("alice", "my-dataset"));
    assert_eq!(split_dataset_id("alice/my-dataset/extra"), both("alice", "my-dataset"));
    assert_eq!(split_dataset_id("é/ü"), both("é", "ü"));
    assert_eq!(split_dataset_id("alice"), (Some("alice".to_string()), None));
    assert_eq!(split_dataset_id("alice/"), (Some("alice".to_string()), None));
    assert_eq!(split_dataset_id("alice//x"), (Some("alice".to_string()), None));
    assert_eq!(split_dataset_id("/my-dataset"), (None, Some("my-dataset".to_string())));
    assert_eq!(split_dataset_id("/"), (None, None));
    assert_eq!(split_dataset_id(""), (None, None));
}

#[test]
fn description_is_made_from_its_id() {
    let made = DatasetMetadata::new(
        "alice/my-dataset",
        "My dataset".to_string(),
        None,
        vec!["CC0-1.0".to_string()],
        Vec::new(),
    );
    assert_eq!(made.owner_slug, Some("alice".to_string()));
    assert_eq!(made.dataset_slug, Some("my-dataset".to_string()));
    assert_eq!(made.validate(), Ok(()));
    let bare = DatasetMetadata::new("my-dataset", "My dataset".to_string(), None, Vec::new(), Vec::new());
    assert_eq!(bare.validate(), Err(KaggleError::Metadata(MetadataIssue::MissingDatasetSlug)));
    let nameless = DatasetMetadata::new("/my-dataset", "My dataset".to_string(), None, Vec::new(), Vec::new());
    assert_eq!(nameless.validate(), Err(KaggleError::Metadata(MetadataIssue::MissingOwnerSlug)));
}
