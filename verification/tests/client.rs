use camelmailer_rs::blocking::Builder;
use camelmailer_rs::{check_base_url, client_settings, CamelMailer, Error, DEFAULT_BASE_URL, USER_AGENT};

#[test]
fn default_base_url_is_the_cloud() {
    let client = CamelMailer::builder("cm_test").build().unwrap();
    assert_eq!(client.base_url(), "https://app.camelmailer.com");
    assert_eq!(DEFAULT_BASE_URL, "https://app.camelmailer.com");
}

#[test]
fn builder_trims_trailing_slash() {
    let client = CamelMailer::builder("cm_test")
        .base_url("https://mail.example.com/")
        .build()
        .unwrap();
    assert_eq!(client.base_url(), "https://mail.example.com");
}

#[test]
fn builder_rejects_invalid_base_url() {
    let error = CamelMailer::builder("cm_test")
        .base_url("not a url")
        .build()
        .unwrap_err();
    assert!(matches!(error, Error::Config(_)));
}

#[test]
fn builder_rejects_non_http_scheme() {
    let error = CamelMailer::builder("cm_test")
        .base_url("ftp://mail.example.com")
        .build()
        .unwrap_err();
    assert!(matches!(error, Error::Config(_)));
}

#[test]
fn builder_trims_every_trailing_slash() {
    let client = CamelMailer::builder("cm_test")
        .base_url("http://localhost:8080///")
        .build()
        .unwrap();
    assert_eq!(client.base_url(), "http://localhost:8080");
}

#[test]
fn builder_keeps_a_path_prefix() {
    let client = CamelMailer::builder("cm_test")
        .base_url("https://mail.example.com/camel/")
        .build()
        .unwrap();
    assert_eq!(client.base_url(), "https://mail.example.com/camel");
}

#[test]
fn builder_messages_name_the_url() {
    let error = CamelMailer::builder("cm_test")
        .base_url("ftp://mail.example.com/")
        .build()
        .unwrap_err();
    match error {
        Error::Config(message) => {
            assert_eq!(message, "base URL must be http(s), got \"ftp://mail.example.com\"")
        }
        other => panic!("expected Error::Config, got {other:?}"),
    }
    let error = CamelMailer::builder("cm_test")
        .base_url("not a url")
        .build()
        .unwrap_err();
    match error {
        Error::Config(message) => assert!(message.starts_with("invalid base URL \"not a url\": ")),
        other => panic!("expected Error::Config, got {other:?}"),
    }
}

#[test]
fn builder_with_timeout_and_own_client() {
    let client = CamelMailer::builder("cm_test")
        .timeout(std::time::Duration::from_secs(5))
        .http_client(reqwest::Client::new())
        .base_url("http://127.0.0.1:9")
        .build()
        .unwrap();
    assert_eq!(client.base_url(), "http://127.0.0.1:9");
    assert_eq!(client.http().base_url(), "http://127.0.0.1:9");
}

#[test]
fn check_base_url_accepts_only_http_and_https() {
    assert!(check_base_url(Ok("http".to_string()), "\"http://a\"").is_ok());
    assert!(check_base_url(Ok("https".to_string()), "\"https://a\"").is_ok());
    match check_base_url(Ok("ftp".to_string()), "\"ftp://a\"") {
        Err(Error::Config(message)) => {
            assert_eq!(message, "base URL must be http(s), got \"ftp://a\"")
        }
        other => panic!("unexpected {other:?}"),
    }
    match check_base_url(Ok("HTTP".to_string()), "\"x\"") {
        Err(Error::Config(_)) => {}
        other => panic!("unexpected {other:?}"),
    }
}

#[test]
fn check_base_url_reports_the_parse_error() {
    match check_base_url(Err("relative URL without a base".to_string()), "\"nope\"") {
        Err(Error::Config(message)) => {
            assert_eq!(message, "invalid base URL \"nope\": relative URL without a base")
        }
        other => panic!("unexpected {other:?}"),
    }
}

#[test]
fn user_agent_names_the_crate_version() {
    assert_eq!(USER_AGENT, "camelmailer-rs/0.2.1");
}

#[test]
fn blocking_builder_sets_the_same_options() {
    let client = Builder::new("cm_test")
        .base_url("https://mail.example.com/")
        .timeout(std::time::Duration::from_secs(1))
        .into_inner()
        .build()
        .unwrap();
    assert_eq!(client.base_url(), "https://mail.example.com");
}

#[test]
fn the_own_pool_carries_the_user_agent_and_timeout() {
    let client = CamelMailer::builder("cm_test")
        .timeout(std::time::Duration::from_secs(7))
        .build()
        .unwrap();
    let settings = client.settings().as_ref().unwrap();
    assert_eq!(settings.user_agent, "camelmailer-rs/0.2.1");
    assert_eq!(settings.timeout, Some(std::time::Duration::from_secs(7)));
    let client = CamelMailer::builder("cm_test").build().unwrap();
    assert_eq!(client.settings().as_ref().unwrap().timeout, None);
}

#[test]
fn a_caller_pool_has_no_library_settings() {
    let client = CamelMailer::builder("cm_test").http_client(reqwest::Client::new()).build().unwrap();
    assert!(client.settings().is_none());
}

#[test]
fn client_settings_are_exact() {
    let settings = client_settings(Some(std::time::Duration::from_millis(250)));
    assert_eq!(settings.user_agent, USER_AGENT);
    assert_eq!(settings.timeout, Some(std::time::Duration::from_millis(250)));
    assert_eq!(client_settings(None).timeout, None);
}

#[test]
fn the_pool_records_its_settings() {
    let client = CamelMailer::builder("cm_test")
        .timeout(std::time::Duration::from_secs(3))
        .build()
        .unwrap();
    let pool = client.http().pool();
    assert_eq!(pool.settings(), client.settings());
    assert_eq!(
        pool.settings().as_ref().map(|s| (s.user_agent.as_str(), s.timeout)),
        Some((USER_AGENT, Some(std::time::Duration::from_secs(3))))
    );
}
