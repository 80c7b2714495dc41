use kaggle::error::KaggleError;
use kaggle::locator::{append_query, attach_query, join_url};
use kaggle::request::{form_field, FormField};

#[test]
fn join_resolves_relative_and_rooted_paths() {
    let base = "https://www.kaggle.com/api/v1";
    assert_eq!(
        join_url(base, "competitions/list"),
        Ok("https://www.kaggle.com/api/competitions/list".to_string())
    );
    assert_eq!(
        join_url(base, "/competitions/data/list/titanic"),
        Ok("https://www.kaggle.com/competitions/data/list/titanic".to_string())
    );
    assert_eq!(
        join_url("https://host/api/v1/", "competitions/list"),
        Ok("https://host/api/v1/competitions/list".to_string())
    );
    assert_eq!(
        join_url(base, "http://other/x?y=1"),
        Ok("http://other/x?y=1".to_string())
    );
    assert_eq!(
        join_url(base, "/a b/é"),
        Ok("https://www.kaggle.com/a%20b/%C3%A9".to_string())
    );
}

#[test]
fn join_fails_on_what_is_no_url() {
    assert_eq!(join_url("not a url", "x"), Err(KaggleError::InvalidUrl));
    assert_eq!(join_url("", "x"), Err(KaggleError::InvalidUrl));
    assert_eq!(join_url("mailto:someone@example.com", "x"), Err(KaggleError::InvalidUrl));
    assert_eq!(join_url("https://host/", "https://"), Err(KaggleError::InvalidUrl));
}

#[test]
fn query_is_form_urlencoded() {
    let pairs = vec![
        form_field("group", ""),
        form_field("search", "a b&c=d"),
        form_field("na me", "é*-._~"),
    ];
    assert_eq!(
        append_query("competitions/list", &pairs),
        "competitions/list?group=&search=a+b%26c%3Dd&na+me=%C3%A9*-._%7E"
    );
}

#[test]
fn no_pairs_no_question_mark() {
    assert_eq!(append_query("competitions/list", &Vec::<FormField>::new()), "competitions/list");
}

#[test]
fn form_fields_hold_what_they_are_given() {
    assert_eq!(
        form_field("fileName", "a.csv"),
        FormField { name: "fileName".to_string(), value: "a.csv".to_string() }
    );
}

#[test]
fn a_query_goes_behind_a_question_mark() {
    assert_eq!(attach_query("competitions/list", "page=1"), "competitions/list?page=1");
    assert_eq!(attach_query("competitions/list", ""), "competitions/list");
    assert_eq!(attach_query("", "a=b"), "?a=b");
}
