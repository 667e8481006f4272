use pulsar_loadgen::destination::{select_destination, ConfigError, Destination};
use pulsar_loadgen::http::{bearer_header, build_http_post, is_success_status};
use pulsar_loadgen::message::TestData;

#[test]
fn destination_needs_exactly_one_option() {
    assert!(matches!(
        select_destination(None, None, None),
        Err(ConfigError::NoDestination)
    ));
    assert!(matches!(
        select_destination(Some("t".into()), Some("http://h".into()), None),
        Err(ConfigError::BothDestinations)
    ));
}

#[test]
fn topic_destination_is_selected() {
    match select_destination(Some("persistent://a/b/c".into()), None, Some("tok".into())) {
        Ok(Destination::Topic { topic }) => assert_eq!(topic, "persistent://a/b/c"),
        _ => panic!("expected a topic"),
    }
}

#[test]
fn http_destination_keeps_token() {
    let d = select_destination(None, Some("https://h/in".into()), Some("tok".into())).unwrap();
    assert!(d.is_http());
    match d {
        Destination::Http { endpoint, auth_token } => {
            assert_eq!(endpoint, "https://h/in");
            assert_eq!(auth_token.as_deref(), Some("tok"));
        }
        _ => panic!("expected an endpoint"),
    }
}

#[test]
fn bearer_header_prefixes_token() {
    assert_eq!(bearer_header("SECRET-REDACTED"), "Bearer SECRET-REDACTED");
    assert_eq!(bearer_header(""), "Bearer ");
}

#[test]
fn post_with_token() {
    let m = TestData::new(String::from("hello"));
    let p = build_http_post("http://localhost:8080/ingest", &m, Some("abc")).unwrap();
    assert_eq!(p.uri, "http://localhost:8080/ingest");
    assert_eq!(p.content_type, "application/json");
    assert_eq!(p.authorization.as_deref(), Some("Bearer abc"));
    assert_eq!(p.body, "{\"data\":\"hello\"}");
}

#[test]
fn post_without_token() {
    let m = TestData::new(String::from("hi"));
    let p = build_http_post("http://h/", &m, None).unwrap();
    assert!(p.authorization.is_none());
    assert_eq!(p.body, "{\"data\":\"hi\"}");
}

#[test]
fn success_statuses_are_the_2xx_class() {
    assert!(is_success_status(200));
    assert!(is_success_status(204));
    assert!(is_success_status(299));
    assert!(!is_success_status(199));
    assert!(!is_success_status(300));
    assert!(!is_success_status(404));
    assert!(!is_success_status(500));
}
