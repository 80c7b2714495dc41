use kaggle::auth::{Authentication, Environment, KaggleCredentials};
use kaggle::error::{CredentialIssue, KaggleError};
use kaggle::json::{JsonMember, JsonObject};

fn environment() -> Environment {
    Environment { user_name: None, key: None, config_dir: None, home_config: None }
}

fn header_of(credentials: &KaggleCredentials) -> String {
    String::from_utf8(credentials.authorization().unwrap()).unwrap()
}

#[test]
fn explicit_credentials_resolve_to_themselves() {
    let auth = Authentication::with_credentials("name", "key");
    assert_eq!(
        auth,
        Authentication::Credentials { user_name: "name".to_string(), key: "key".to_string() }
    );
    assert_eq!(auth.config_path(&environment()), Ok(None));
    let credentials = auth.credentials(&environment(), None).unwrap();
    assert_eq!(header_of(&credentials), "Basic bmFtZTprZXk=");
}

#[test]
fn default_authentication_is_the_default_config_file() {
    assert_eq!(Authentication::default(), Authentication::ConfigFile { path: None });
}

#[test]
fn credentials_from_the_environment() {
    let mut env = environment();
    assert_eq!(
        Authentication::Env.credentials(&env, None).err(),
        Some(KaggleError::Credentials(CredentialIssue::UserNameNotSet))
    );
    env.key = Some("k".to_string());
    assert_eq!(
        KaggleCredentials::from_env(&env).err(),
        Some(KaggleError::Credentials(CredentialIssue::UserNameNotSet))
    );
    env.key = None;
    env.user_name = Some("u".to_string());
    assert_eq!(
        Authentication::Env.credentials(&env, None).err(),
        Some(KaggleError::Credentials(CredentialIssue::KeyNotSet))
    );
    env.key = Some("k".to_string());
    assert_eq!(Authentication::Env.config_path(&env), Ok(None));
    let credentials = Authentication::Env.credentials(&env, None).unwrap();
    assert_eq!(header_of(&credentials), "Basic dTpr");
}

#[test]
fn config_path_prefers_the_explicit_path() {
    let mut env = environment();
    env.config_dir = Some("/etc/kaggle".to_string());
    env.home_config = Some("/home/u/.kaggle/kaggle.json".to_string());
    let explicit = Authentication::ConfigFile { path: Some("/x/kaggle.json".to_string()) };
    assert_eq!(explicit.config_path(&env), Ok(Some("/x/kaggle.json".to_string())));
    let default = Authentication::ConfigFile { path: None };
    assert_eq!(default.config_path(&env), Ok(Some("/etc/kaggle".to_string())));
    env.config_dir = None;
    assert_eq!(default.config_path(&env), Ok(Some("/home/u/.kaggle/kaggle.json".to_string())));
    env.home_config = None;
    assert_eq!(
        default.config_path(&env),
        Err(KaggleError::Credentials(CredentialIssue::HomeDirectoryUnknown))
    );
    assert_eq!(
        default.credentials(&env, Some(b"{}")).err(),
        Some(KaggleError::Credentials(CredentialIssue::HomeDirectoryUnknown))
    );
}

#[test]
fn credentials_from_a_config_file() {
    let env = environment();
    let auth = Authentication::ConfigFile { path: Some("/x/kaggle.json".to_string()) };
    assert_eq!(
        auth.clone().credentials(&env, None).err(),
        Some(KaggleError::Credentials(CredentialIssue::ConfigFileMissing))
    );
    let content = br#"{"username":"alice","key":"s3cret","extra":1}"#;
    let credentials = auth.clone().credentials(&env, Some(content)).unwrap();
    assert_eq!(header_of(&credentials), "Basic YWxpY2U6czNjcmV0");
    assert!(credentials == KaggleCredentials::from_json(content).unwrap());
}

#[test]
fn config_file_of_the_wrong_shape_is_a_decode_error() {
    for content in [
        &b"not json"[..],
        &b"[\"alice\",\"s3cret\"]"[..],
        &b"{\"username\":\"alice\"}"[..],
        &b"{\"key\":\"s3cret\"}"[..],
        &b"{\"username\":1,\"key\":\"s3cret\"}"[..],
        &b"{\"user_name\":\"alice\",\"key\":\"s3cret\"}"[..],
        &b""[..],
    ] {
        assert_eq!(KaggleCredentials::from_json(content).err(), Some(KaggleError::Decode));
    }
}

#[test]
fn authorization_encodes_user_colon_key() {
    let env = environment();
    let with = |user: &str, key: &str| {
        header_of(&Authentication::with_credentials(user, key).credentials(&env, None).unwrap())
    };
    assert_eq!(with("", ""), "Basic Og==");
    assert_eq!(with("a", ""), "Basic YTo=");
    assert_eq!(with("Aladdin", "open sesame"), "Basic QWxhZGRpbjpvcGVuIHNlc2FtZQ==");
    assert_eq!(with("é", "ü"), "Basic w6k6w7w=");
}

#[test]
fn credentials_from_a_decoded_object() {
    let member = |key: &str, text: Option<&str>| JsonMember {
        key: key.to_string(),
        text: text.map(String::from),
    };
    let full = JsonObject { members: vec![member("key", Some("k")), member("username", Some("u"))] };
    assert_eq!(header_of(&KaggleCredentials::from_object(&full).unwrap()), "Basic dTpr");
    let no_text = JsonObject { members: vec![member("key", None), member("username", Some("u"))] };
    assert_eq!(KaggleCredentials::from_object(&no_text).err(), Some(KaggleError::Decode));
    let empty = JsonObject { members: vec![] };
    assert_eq!(KaggleCredentials::from_object(&empty).err(), Some(KaggleError::Decode));
}
