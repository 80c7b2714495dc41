use kaggle::auth::{Authentication, Environment};
use kaggle::client::KaggleApiClient;
use kaggle::error::{ApiError, KaggleError};
use kaggle::json::JsonDocument;
use kaggle::request::{form_field, Method, Payload, Request};
use kaggle::transport::Response;
use kaggle::upload::{
    copy_text, find_resource, ArchiveMode, DatasetColumn, DatasetUploadFile, DirectoryUpload,
    EntryKind, FileStat, Resource, Schema, UploadSessionInfo, WalkAction,
};

fn client() -> KaggleApiClient {
    KaggleApiClient::builder()
        .auth(Authentication::with_credentials("name", "key"))
        .download_dir("/data")
        .build(
            &Environment { user_name: None, key: None, config_dir: None, home_config: None },
            None,
            None,
        )
        .unwrap()
}

fn ok(body: &str) -> Response {
    Response { status: 200, retry_after: None, body: body.as_bytes().to_vec() }
}

fn column(name: &str) -> DatasetColumn {
    DatasetColumn {
        name: name.to_string(),
        description: Some(format!("the {}", name)),
        column_type: None,
    }
}

fn resource(path: &str, description: Option<&str>, columns: Option<Vec<DatasetColumn>>) -> Resource {
    Resource {
        path: path.to_string(),
        description: description.map(String::from),
        schema: columns.map(|fields| Schema { fields }),
    }
}

fn stat() -> FileStat {
    FileStat { content_length: 12, last_modified_secs: 1600000000 }
}

#[test]
fn session_is_read_from_the_answer() {
    assert_eq!(
        UploadSessionInfo::from_response(ok(r#"{"token":"tok1","createUrl":"http://x"}"#)),
        Ok(UploadSessionInfo { token: "tok1".to_string() })
    );
}

#[test]
fn session_needs_a_token_that_is_not_empty() {
    assert_eq!(
        UploadSessionInfo::from_response(ok(r#"{"token":""}"#)),
        Err(KaggleError::MissingToken)
    );
    assert_eq!(UploadSessionInfo::from_response(ok(r#"{"token":5}"#)), Err(KaggleError::Decode));
    assert_eq!(UploadSessionInfo::from_response(ok(r#"{}"#)), Err(KaggleError::Decode));
    assert_eq!(UploadSessionInfo::from_response(ok(r#"["tok1"]"#)), Err(KaggleError::Decode));
    assert_eq!(UploadSessionInfo::from_response(ok("tok1")), Err(KaggleError::Decode));
}

#[test]
fn session_passes_a_refusal_on() {
    let refused = Response {
        status: 429,
        retry_after: Some("12".to_string()),
        body: br#"{"token":"tok1"}"#.to_vec(),
    };
    assert_eq!(
        UploadSessionInfo::from_response(refused),
        Err(KaggleError::Api(ApiError::RateLimited(Some(12))))
    );
}

#[test]
fn file_handle_without_a_resource_is_bare() {
    let info = UploadSessionInfo { token: "tok1".to_string() };
    assert_eq!(
        DatasetUploadFile::from_session(info, None),
        DatasetUploadFile { token: "tok1".to_string(), description: None, columns: None }
    );
    assert_eq!(
        DatasetUploadFile::new("t".to_string()),
        DatasetUploadFile { token: "t".to_string(), description: None, columns: None }
    );
}

#[test]
fn file_handle_takes_description_and_columns_from_the_resource() {
    let info = UploadSessionInfo { token: "tok1".to_string() };
    let described = resource("a.csv", Some("about a"), Some(vec![column("id"), column("name")]));
    assert_eq!(
        DatasetUploadFile::from_session(info, Some(&described)),
        DatasetUploadFile {
            token: "tok1".to_string(),
            description: Some("about a".to_string()),
            columns: Some(vec![column("id"), column("name")]),
        }
    );
    let plain = resource("a.csv", None, None);
    let info = UploadSessionInfo { token: "tok1".to_string() };
    assert_eq!(
        DatasetUploadFile::from_session(info, Some(&plain)),
        DatasetUploadFile { token: "tok1".to_string(), description: None, columns: None }
    );
}

#[test]
fn setters_change_one_field() {
    let mut file = DatasetUploadFile::new("t".to_string());
    file.set_description(Some("d".to_string()));
    file.set_columns(vec![column("x")]);
    assert_eq!(
        file,
        DatasetUploadFile {
            token: "t".to_string(),
            description: Some("d".to_string()),
            columns: Some(vec![column("x")]),
        }
    );
    file.set_description(None);
    assert_eq!(file.description, None);
    assert_eq!(file.columns, Some(vec![column("x")]));
}

#[test]
fn processed_columns_keep_their_order() {
    let schema = Schema { fields: vec![column("b"), column("a"), column("c")] };
    assert_eq!(schema.get_processed_columns(), vec![column("b"), column("a"), column("c")]);
    assert_eq!(Schema { fields: vec![] }.get_processed_columns(), Vec::<DatasetColumn>::new());
    assert_eq!(copy_text(&Some("x".to_string())), Some("x".to_string()));
    assert_eq!(copy_text(&None), None);
}

#[test]
fn the_last_resource_of_a_name_describes_the_file() {
    let resources = vec![
        resource("a.csv", Some("first"), None),
        resource("b.csv", None, None),
        resource("a.csv", Some("second"), None),
    ];
    assert_eq!(find_resource(&resources, "a.csv"), Some(2));
    assert_eq!(find_resource(&resources, "b.csv"), Some(1));
    assert_eq!(find_resource(&resources, "c.csv"), None);
    assert_eq!(find_resource(&resources, "A.csv"), None);
    assert_eq!(find_resource(&Vec::new(), "a.csv"), None);
}

#[test]
fn directory_with_one_file_and_a_matching_resource() {
    let c = client();
    let resources = vec![resource("data.csv", Some("the data"), Some(vec![column("id")]))];
    let mut walk = c.upload_files(resources, ArchiveMode::Zip);
    let action = walk.on_entry(&c, "/set/data.csv", "data.csv", EntryKind::File, Some(stat()));
    assert_eq!(
        action,
        Ok(WalkAction::Negotiate(Request {
            method: Method::Post,
            url: "https://www.kaggle.com/datasets/upload/file/12/1600000000".to_string(),
            payload: Payload::Form(vec![form_field("fileName", "data.csv")]),
        }))
    );
    assert_eq!(walk.on_answer(ok(r#"{"token":"tok-data"}"#)), Ok(()));
    assert_eq!(
        walk.finish(),
        vec![DatasetUploadFile {
            token: "tok-data".to_string(),
            description: Some("the data".to_string()),
            columns: Some(vec![column("id")]),
        }]
    );
}

#[test]
fn directory_with_one_file_and_no_matching_resource() {
    let c = client();
    let resources = vec![resource("other.csv", Some("not this one"), Some(vec![column("id")]))];
    let mut walk = DirectoryUpload::new(resources, ArchiveMode::Tar);
    assert_eq!(walk.archive_mode(), ArchiveMode::Tar);
    assert!(walk
        .on_entry(&c, "/set/data.csv", "data.csv", EntryKind::File, Some(stat()))
        .is_ok());
    assert_eq!(walk.on_answer(ok(r#"{"token":"tok-data"}"#)), Ok(()));
    assert_eq!(
        walk.finish(),
        vec![DatasetUploadFile { token: "tok-data".to_string(), description: None, columns: None }]
    );
}

#[test]
fn directory_with_files_directories_and_other_entries() {
    let c = client();
    let resources = vec![resource("b.csv", Some("about b"), None)];
    let mut walk = c.upload_files(resources, ArchiveMode::Zip);
    assert!(matches!(
        walk.on_entry(&c, "/set/a.csv", "a.csv", EntryKind::File, Some(stat())),
        Ok(WalkAction::Negotiate(_))
    ));
    assert_eq!(walk.on_answer(ok(r#"{"token":"ta"}"#)), Ok(()));
    assert_eq!(
        walk.on_entry(&c, "/set/sub", "sub", EntryKind::Directory, Some(stat())),
        Ok(WalkAction::Archive)
    );
    assert_eq!(walk.on_entry(&c, "/set/sub2", "sub2", EntryKind::Directory, None), Ok(WalkAction::Archive));
    assert_eq!(walk.on_entry(&c, "/set/pipe", "pipe", EntryKind::Other, None), Ok(WalkAction::Next));
    assert!(matches!(
        walk.on_entry(&c, "/set/b.csv", "b.csv", EntryKind::File, Some(stat())),
        Ok(WalkAction::Negotiate(_))
    ));
    assert_eq!(walk.on_answer(ok(r#"{"token":"tb"}"#)), Ok(()));
    assert_eq!(
        walk.finish(),
        vec![
            DatasetUploadFile { token: "ta".to_string(), description: None, columns: None },
            DatasetUploadFile {
                token: "tb".to_string(),
                description: Some("about b".to_string()),
                columns: None,
            },
        ]
    );
}

#[test]
fn empty_directory_gives_no_uploads() {
    let walk = client().upload_files(vec![resource("a.csv", None, None)], ArchiveMode::Zip);
    assert_eq!(walk.finish(), Vec::<DatasetUploadFile>::new());
}

#[test]
fn a_missing_file_stops_the_walk_with_its_path() {
    let c = client();
    let mut walk = c.upload_files(Vec::new(), ArchiveMode::Zip);
    assert_eq!(
        walk.on_entry(&c, "/set/gone.csv", "gone.csv", EntryKind::File, None),
        Err(KaggleError::FileNotFound("/set/gone.csv".to_string()))
    );
    assert_eq!(walk.on_answer(ok(r#"{"token":"t"}"#)), Err(KaggleError::OutOfSequence));
    assert_eq!(walk.finish(), Vec::<DatasetUploadFile>::new());
}

#[test]
fn a_failed_negotiation_adds_no_upload() {
    let c = client();
    let mut walk = c.upload_files(Vec::new(), ArchiveMode::Zip);
    assert!(walk.on_entry(&c, "/set/a.csv", "a.csv", EntryKind::File, Some(stat())).is_ok());
    assert_eq!(
        walk.on_entry(&c, "/set/b.csv", "b.csv", EntryKind::File, Some(stat())),
        Err(KaggleError::OutOfSequence)
    );
    let refused = Response { status: 401, retry_after: None, body: Vec::new() };
    assert_eq!(walk.on_answer(refused), Err(KaggleError::Api(ApiError::Unauthorized)));
    assert_eq!(walk.on_answer(ok(r#"{"token":"t"}"#)), Err(KaggleError::OutOfSequence));
    assert_eq!(walk.finish(), Vec::<DatasetUploadFile>::new());
}

#[test]
fn archive_modes_pack_nothing() {
    ArchiveMode::Tar.make_archive("/set/sub", "/tmp/sub.tar");
    ArchiveMode::Zip.make_archive("/set/sub", "/tmp/sub.zip");
    assert_ne!(ArchiveMode::Tar, ArchiveMode::Zip);
}

#[test]
fn session_is_read_from_a_decoded_answer() {
    let decoded = |body: &str| JsonDocument::parse(body.as_bytes()).unwrap();
    assert_eq!(
        UploadSessionInfo::from_document(decoded(r#"{"token":"tok1"}"#)),
        Ok(UploadSessionInfo { token: "tok1".to_string() })
    );
    assert_eq!(
        UploadSessionInfo::from_document(decoded(r#"{"token":""}"#)),
        Err(KaggleError::MissingToken)
    );
    assert_eq!(UploadSessionInfo::from_document(decoded("{}")), Err(KaggleError::Decode));
    assert_eq!(UploadSessionInfo::from_document(JsonDocument::Other), Err(KaggleError::Decode));
}

#[test]
fn walk_takes_the_outcome_of_a_negotiation() {
    let c = client();
    let mut walk = c.upload_files(vec![resource("a.csv", Some("about a"), None)], ArchiveMode::Zip);
    assert_eq!(
        walk.on_session(Ok(UploadSessionInfo { token: "early".to_string() })),
        Err(KaggleError::OutOfSequence)
    );
    assert!(walk.on_entry(&c, "/set/a.csv", "a.csv", EntryKind::File, Some(stat())).is_ok());
    assert_eq!(walk.on_session(Ok(UploadSessionInfo { token: "ta".to_string() })), Ok(()));
    assert!(walk.on_entry(&c, "/set/b.csv", "b.csv", EntryKind::File, Some(stat())).is_ok());
    assert_eq!(walk.on_session(Err(KaggleError::Decode)), Err(KaggleError::Decode));
    assert_eq!(
        walk.finish(),
        vec![DatasetUploadFile {
            token: "ta".to_string(),
            description: Some("about a".to_string()),
            columns: None,
        }]
    );
}
