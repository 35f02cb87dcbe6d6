use token_source::FailingTokenSource;
use token_source::StaticTokenSource;
use token_source::StaticTokenSourceProvider;
use token_source::TokenError;
use token_source::TokenSource;
use token_source::TokenSourceProvider;

#[test]
fn static_source_returns_configured_token() {
    let source = StaticTokenSource::new(String::from("T1"));
    for _ in 0..3 {
        let r = source.token();
        assert_eq!(r.unwrap(), "T1");
    }
}

#[test]
fn static_source_round_trip() {
    let source = StaticTokenSource::new(String::from("abc123"));
    for _ in 0..5 {
        match source.token() {
            Ok(t) => assert_eq!(t, "abc123"),
            Err(e) => panic!("static source failed: {}", e.message()),
        }
    }
}

#[test]
fn static_source_empty_token() {
    let source = StaticTokenSource::new(String::new());
    assert_eq!(source.token().unwrap(), "");
}

#[test]
fn static_source_clone_keeps_token() {
    let source = StaticTokenSource::new(String::from("T1"));
    let copy = source.clone();
    assert_eq!(copy.token().unwrap(), "T1");
    assert_eq!(source.token().unwrap(), "T1");
}

#[test]
fn failing_source_reports_cause() {
    let source = FailingTokenSource::new(String::from("network timeout"));
    let r = source.token();
    assert!(r.is_err());
    let e = r.err().unwrap();
    assert!(e.message().contains("network timeout"));
}

#[test]
fn failing_source_preserves_cause() {
    let source = FailingTokenSource::new(String::from("upstream unreachable"));
    for _ in 0..3 {
        match source.token() {
            Ok(t) => panic!("failing source produced a token: {}", t),
            Err(e) => assert_eq!(e.message(), "upstream unreachable"),
        }
    }
}

#[test]
fn token_error_message_round_trip() {
    let e = TokenError::new(String::from("credentials expired"));
    assert_eq!(e.message(), "credentials expired");
}

#[test]
fn token_error_empty_cause() {
    let e = TokenError::new(String::new());
    assert_eq!(e.message(), "");
}

#[test]
fn provider_indirection() {
    let source = StaticTokenSource::new(String::from("T1"));
    let provider = StaticTokenSourceProvider::new(source);
    let handle = provider.token_source();
    assert_eq!(handle.token().unwrap(), "T1");
}

#[test]
fn provider_accessor_is_total() {
    let provider = StaticTokenSourceProvider::new(StaticTokenSource::new(String::from("T1")));
    for _ in 0..3 {
        let handle = provider.token_source();
        assert_eq!(handle.token().unwrap(), "T1");
    }
}

#[test]
fn shared_handle_outlives_provider() {
    let provider = StaticTokenSourceProvider::new(StaticTokenSource::new(String::from("T1")));
    let handle = provider.token_source();
    drop(provider);
    assert_eq!(handle.token().unwrap(), "T1");
}

#[test]
fn shared_handles_are_independent() {
    let provider = StaticTokenSourceProvider::new(StaticTokenSource::new(String::from("T1")));
    let first = provider.token_source();
    let second = provider.token_source();
    assert_eq!(first.token().unwrap(), "T1");
    assert_eq!(second.token().unwrap(), "T1");
    drop(first);
    assert_eq!(second.token().unwrap(), "T1");
}
