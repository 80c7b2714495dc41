use kaggle::auth::{Authentication, Environment};
use kaggle::client::KaggleApiClient;
use kaggle::error::{ApiError, KaggleError};
use kaggle::json::{JsonDocument, JsonObject};
use kaggle::request::{form_field, Method, Payload, Request};
use kaggle::submit::{
    classify_negotiation, parse_create_url, upload_token, Phase, Step, Submission, UploadRoute,
};
use kaggle::transport::Response;
use kaggle::upload::FileStat;

fn client() -> KaggleApiClient {
    KaggleApiClient::builder()
        .auth(Authentication::with_credentials("name", "key"))
        .download_dir("/data")
        .build(
            &Environment { user_name: None, key: None, config_dir: None, home_config: None },
            None,
            None,
        )
        .unwrap()
}

fn ok(body: &str) -> Response {
    Response { status: 200, retry_after: None, body: body.as_bytes().to_vec() }
}

fn object(body: &str) -> JsonObject {
    JsonDocument::parse(body.as_bytes()).unwrap().into_object().unwrap()
}

fn legacy(guid: &str, content_length: u64, last_modified_secs: u64) -> UploadRoute {
    UploadRoute::Legacy { guid: guid.to_string(), content_length, last_modified_secs }
}

fn started(c: &KaggleApiClient) -> Submission {
    let (submission, first) = c
        .competition_submit(
            "/subs/sub.csv",
            Some(FileStat { content_length: 7, last_modified_secs: 99 }),
            "sub.csv",
            "titanic",
            "my message",
        )
        .unwrap();
    assert_eq!(
        first,
        Request {
            method: Method::Post,
            url: "https://www.kaggle.com/competitions/titanic/submissions/url/7/99".to_string(),
            payload: Payload::Form(vec![form_field("fileName", "sub.csv")]),
        }
    );
    assert_eq!(submission.phase(), Phase::Start);
    submission
}

fn finalize_request(token: &str) -> Request {
    Request {
        method: Method::Post,
        url: "https://www.kaggle.com/competitions/submissions/submit/titanic".to_string(),
        payload: Payload::Form(vec![
            form_field("blobFileTokens", token),
            form_field("submissionDescription", "my message"),
        ]),
    }
}

#[test]
fn create_url_is_read_from_its_end() {
    assert_eq!(parse_create_url("http://x/99/42/abc123"), Ok(legacy("abc123", 42, 99)));
    assert_eq!(parse_create_url("99/42/abc123"), Ok(legacy("abc123", 42, 99)));
    assert_eq!(parse_create_url("/99/42/abc123"), Ok(legacy("abc123", 42, 99)));
    assert_eq!(parse_create_url("a/b/+1/002/g/u/i/d"), Err(KaggleError::MalformedResponse));
    assert_eq!(parse_create_url("a/b/+1/002/é"), Ok(legacy("é", 2, 1)));
    assert_eq!(parse_create_url("http://x/1/2/"), Ok(legacy("", 2, 1)));
    assert_eq!(
        parse_create_url("https://host/upload/18446744073709551615/0/guid"),
        Ok(legacy("guid", 0, u64::MAX))
    );
}

#[test]
fn create_url_with_too_few_parts_is_malformed() {
    assert_eq!(parse_create_url(""), Err(KaggleError::MalformedResponse));
    assert_eq!(parse_create_url("guid"), Err(KaggleError::MalformedResponse));
    assert_eq!(parse_create_url("42/guid"), Err(KaggleError::MalformedResponse));
    assert_eq!(parse_create_url("/"), Err(KaggleError::MalformedResponse));
}

#[test]
fn create_url_with_parts_that_are_no_numbers_is_malformed() {
    assert_eq!(parse_create_url("http://x/a/7/guid1"), Err(KaggleError::MalformedResponse));
    assert_eq!(parse_create_url("http://x/abc123/42/99"), Err(KaggleError::MalformedResponse));
    assert_eq!(parse_create_url("http://x/7/a/guid1"), Err(KaggleError::MalformedResponse));
    assert_eq!(parse_create_url("//guid"), Err(KaggleError::MalformedResponse));
    assert_eq!(
        parse_create_url("x/18446744073709551616/1/guid"),
        Err(KaggleError::MalformedResponse)
    );
    assert_eq!(parse_create_url("1/-2/guid"), Err(KaggleError::MalformedResponse));
}

#[test]
fn answer_with_is_complete_takes_the_legacy_route() {
    let answer = object(r#"{"isComplete": false, "createUrl": "http://x/5/7/guid1"}"#);
    assert_eq!(classify_negotiation(&answer), Ok(legacy("guid1", 7, 5)));
    for value in ["true", "null", "\"no\"", "0", "[]"] {
        let answer = object(&format!(
            r#"{{"createUrl": "http://x/5/7/guid1", "isComplete": {}}}"#,
            value
        ));
        assert_eq!(classify_negotiation(&answer), Ok(legacy("guid1", 7, 5)));
    }
}

#[test]
fn answer_without_is_complete_takes_the_direct_route() {
    let answer = object(r#"{"createUrl": "http://signed-url", "token":"tok1"}"#);
    assert_eq!(
        classify_negotiation(&answer),
        Ok(UploadRoute::Direct { create_url: "http://signed-url".to_string() })
    );
    let shaped_like_legacy = object(r#"{"createUrl": "http://x/5/7/guid1"}"#);
    assert_eq!(
        classify_negotiation(&shaped_like_legacy),
        Ok(UploadRoute::Direct { create_url: "http://x/5/7/guid1".to_string() })
    );
    assert_eq!(upload_token(Some(&answer)), Ok("tok1".to_string()));
}

#[test]
fn answer_without_create_url_is_malformed() {
    for body in [
        r#"{}"#,
        r#"{"isComplete": true}"#,
        r#"{"token": "tok1"}"#,
        r#"{"createUrl": 5}"#,
        r#"{"createUrl": null, "isComplete": false}"#,
        r#"{"createurl": "http://x/5/7/guid1"}"#,
    ] {
        assert_eq!(classify_negotiation(&object(body)), Err(KaggleError::MalformedResponse));
    }
}

#[test]
fn token_of_an_upload() {
    assert_eq!(upload_token(Some(&object(r#"{"token":"t"}"#))), Ok("t".to_string()));
    assert_eq!(upload_token(Some(&object(r#"{"token":""}"#))), Ok(String::new()));
    assert_eq!(upload_token(Some(&object(r#"{"token":1}"#))), Err(KaggleError::MissingToken));
    assert_eq!(upload_token(Some(&object(r#"{}"#))), Err(KaggleError::MissingToken));
    assert_eq!(upload_token(None), Err(KaggleError::MissingToken));
}

#[test]
fn legacy_submission_from_start_to_end() {
    let c = client();
    let mut submission = started(&c);
    let step = submission.advance(&c, ok(r#"{"isComplete": false, "createUrl": "http://x/5/7/guid1", "token": "not this one"}"#));
    assert_eq!(
        step,
        Ok(Step::Send(Request {
            method: Method::Post,
            url: "https://www.kaggle.com/competitions/submissions/upload/guid1/7/5".to_string(),
            payload: Payload::FilePart("file".to_string()),
        }))
    );
    assert_eq!(submission.phase(), Phase::LegacyUpload);
    let step = submission.advance(&c, ok(r#"{"token": "tok-legacy"}"#));
    assert_eq!(step, Ok(Step::Send(finalize_request("tok-legacy"))));
    assert_eq!(submission.phase(), Phase::Uploaded);
    let result = r#"{"message": "Successfully submitted"}"#;
    assert_eq!(submission.advance(&c, ok(result)), Ok(Step::Done(result.as_bytes().to_vec())));
    assert_eq!(submission.phase(), Phase::Finalized);
    assert_eq!(submission.advance(&c, ok(result)), Err(KaggleError::OutOfSequence));
    assert_eq!(submission.phase(), Phase::Finalized);
}

#[test]
fn direct_submission_from_start_to_end() {
    let c = client();
    let mut submission = started(&c);
    let step = submission.advance(&c, ok(r#"{"createUrl": "http://signed-url", "token":"tok1"}"#));
    assert_eq!(
        step,
        Ok(Step::Send(Request {
            method: Method::Put,
            url: "http://signed-url".to_string(),
            payload: Payload::FileStream,
        }))
    );
    assert_eq!(submission.phase(), Phase::DirectUpload);
    let step = submission.advance(&c, ok(r#"{"token": "another"}"#));
    assert_eq!(step, Ok(Step::Send(finalize_request("tok1"))));
    assert_eq!(submission.phase(), Phase::Uploaded);
    assert_eq!(submission.advance(&c, ok("[1]")), Ok(Step::Done(b"[1]".to_vec())));
    assert_eq!(submission.phase(), Phase::Finalized);
}

#[test]
fn negotiation_without_create_url_never_uploads() {
    let c = client();
    let mut submission = started(&c);
    assert_eq!(
        submission.advance(&c, ok(r#"{"isComplete": false, "token": "t"}"#)),
        Err(KaggleError::MalformedResponse)
    );
    assert_eq!(submission.phase(), Phase::Failed);
    assert_eq!(
        submission.advance(&c, ok(r#"{"createUrl": "http://signed-url", "token":"tok1"}"#)),
        Err(KaggleError::OutOfSequence)
    );
    assert_eq!(submission.phase(), Phase::Failed);
}

#[test]
fn negotiation_that_is_no_object_is_malformed() {
    let c = client();
    let mut submission = started(&c);
    assert_eq!(submission.advance(&c, ok(r#"["http://signed-url"]"#)), Err(KaggleError::MalformedResponse));
    assert_eq!(submission.phase(), Phase::Failed);
    let mut submission = started(&c);
    assert_eq!(submission.advance(&c, ok("<html>")), Err(KaggleError::Decode));
    assert_eq!(submission.phase(), Phase::Failed);
}

#[test]
fn legacy_upload_without_token_fails_with_missing_token() {
    let c = client();
    for body in [r#"{}"#, r#"{"token": 5}"#, r#"[]"#] {
        let mut submission = started(&c);
        assert!(submission.advance(&c, ok(r#"{"isComplete": true, "createUrl": "1/2/g"}"#)).is_ok());
        assert_eq!(submission.advance(&c, ok(body)), Err(KaggleError::MissingToken));
        assert_eq!(submission.phase(), Phase::Failed);
    }
}

#[test]
fn direct_upload_without_token_in_the_negotiation_fails_with_missing_token() {
    let c = client();
    let mut submission = started(&c);
    assert!(submission.advance(&c, ok(r#"{"createUrl": "http://signed-url"}"#)).is_ok());
    assert_eq!(
        submission.advance(&c, ok(r#"{"token": "from the upload"}"#)),
        Err(KaggleError::MissingToken)
    );
    assert_eq!(submission.phase(), Phase::Failed);
}

#[test]
fn refusals_and_bad_bodies_end_the_submission_at_any_step() {
    let c = client();
    let refused = Response { status: 429, retry_after: Some("30".to_string()), body: Vec::new() };
    let mut submission = started(&c);
    assert_eq!(
        submission.advance(&c, refused.clone()),
        Err(KaggleError::Api(ApiError::RateLimited(Some(30))))
    );
    assert_eq!(submission.phase(), Phase::Failed);

    let mut submission = started(&c);
    assert!(submission.advance(&c, ok(r#"{"createUrl": "http://signed-url", "token":"tok1"}"#)).is_ok());
    assert_eq!(submission.advance(&c, ok("")), Err(KaggleError::Decode));
    assert_eq!(submission.phase(), Phase::Failed);

    let mut submission = started(&c);
    assert!(submission.advance(&c, ok(r#"{"createUrl": "http://signed-url", "token":"tok1"}"#)).is_ok());
    assert!(submission.advance(&c, ok("{}")).is_ok());
    assert_eq!(
        submission.advance(&c, Response { status: 401, retry_after: None, body: b"{}".to_vec() }),
        Err(KaggleError::Api(ApiError::Unauthorized))
    );
    assert_eq!(submission.phase(), Phase::Failed);

    let mut submission = started(&c);
    assert!(submission.advance(&c, ok(r#"{"createUrl": "http://signed-url", "token":"tok1"}"#)).is_ok());
    assert!(submission.advance(&c, ok("{}")).is_ok());
    assert_eq!(submission.advance(&c, ok("done")), Err(KaggleError::Decode));
    assert_eq!(submission.phase(), Phase::Failed);
}

#[test]
fn submitting_a_file_that_is_not_there() {
    assert_eq!(
        client().competition_submit("/subs/gone.csv", None, "gone.csv", "titanic", "m").err(),
        Some(KaggleError::FileNotFound("/subs/gone.csv".to_string()))
    );
}

#[test]
fn submission_takes_decoded_outcomes() {
    let c = client();
    let mut submission = started(&c);
    let negotiated = JsonDocument::parse(br#"{"createUrl": "http://signed-url", "token":"tok1"}"#);
    assert_eq!(
        submission.advance_decoded(&c, negotiated, Vec::new()),
        Ok(Step::Send(Request {
            method: Method::Put,
            url: "http://signed-url".to_string(),
            payload: Payload::FileStream,
        }))
    );
    assert_eq!(
        submission.advance_decoded(&c, Ok(JsonDocument::Other), Vec::new()),
        Ok(Step::Send(finalize_request("tok1")))
    );
    assert_eq!(
        submission.advance_decoded(&c, Ok(JsonDocument::Other), b"result".to_vec()),
        Ok(Step::Done(b"result".to_vec()))
    );
    assert_eq!(submission.phase(), Phase::Finalized);

    let mut submission = started(&c);
    assert_eq!(
        submission.advance_decoded(&c, Err(KaggleError::Api(ApiError::Other(500))), Vec::new()),
        Err(KaggleError::Api(ApiError::Other(500)))
    );
    assert_eq!(submission.phase(), Phase::Failed);
}
