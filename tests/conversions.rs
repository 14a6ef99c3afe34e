use docker_error::{Cause, DockerError, EnvVarError, Error, ErrorKind, ResponseError};

fn json_failure() -> serde_json::Error {
    serde_json::from_str::<serde_json::Value>("{\"id\": ").unwrap_err()
}

fn parse_daemon_reply(text: &str) -> docker_error::Result<serde_json::Value> {
    let value = serde_json::from_str::<serde_json::Value>(text)?;
    Ok(value)
}

#[test]
fn json_failure_while_parsing_reply() {
    let raw = json_failure();
    let text = raw.to_string();
    let (line, column) = (raw.line(), raw.column());
    let e = Error::from(raw);
    assert!(matches!(e.kind(), ErrorKind::Json));
    assert_eq!(e.message(), "json error");
    match e.cause() {
        Some(Cause::Json(c)) => {
            assert_eq!(c.to_string(), text);
            assert_eq!((c.line(), c.column()), (line, column));
        }
        other => panic!("unexpected cause {:?}", other),
    }
}

#[test]
fn question_mark_converts_json_failure() {
    let e = parse_daemon_reply("[1, 2").unwrap_err();
    assert!(matches!(e.kind(), ErrorKind::Json));
    assert!(matches!(e.cause(), Some(Cause::Json(_))));
    assert!(parse_daemon_reply("[1, 2]").is_ok());
}

#[test]
fn io_failure_keeps_its_cause() {
    let raw = std::io::Error::new(std::io::ErrorKind::NotFound, "socket missing");
    let e = Error::from(raw);
    assert!(matches!(e.kind(), ErrorKind::Io));
    assert_eq!(e.message(), "io error");
    match e.cause() {
        Some(Cause::Io(c)) => {
            assert_eq!(c.kind(), std::io::ErrorKind::NotFound);
            assert_eq!(c.to_string(), "socket missing");
        }
        other => panic!("unexpected cause {:?}", other),
    }
}

#[test]
fn env_var_failure_converts() {
    let raw = EnvVarError::NotUnicode(vec![0x66, 0x6f, 0x80]);
    let e = Error::from(raw.clone());
    assert!(matches!(e.kind(), ErrorKind::Envvar));
    assert_eq!(e.message(), "envvar error");
    match e.cause() {
        Some(Cause::Envvar(c)) => assert_eq!(c, &raw),
        other => panic!("unexpected cause {:?}", other),
    }
    let missing = Error::from(EnvVarError::NotPresent);
    assert!(matches!(missing.cause(), Some(Cause::Envvar(EnvVarError::NotPresent))));
}

#[test]
fn daemon_failure_converts() {
    let raw = DockerError { message: "no such image".to_string() };
    let e = Error::from(raw.clone());
    assert!(matches!(e.kind(), ErrorKind::Docker));
    assert_eq!(e.message(), "docker error");
    match e.cause() {
        Some(Cause::Docker(c)) => assert_eq!(c, &raw),
        other => panic!("unexpected cause {:?}", other),
    }
}

#[test]
fn response_failure_converts() {
    let raw = ResponseError { message: "truncated stream".to_string() };
    let e = Error::from(raw.clone());
    assert!(matches!(e.kind(), ErrorKind::Response));
    assert_eq!(e.message(), "response error");
    match e.cause() {
        Some(Cause::Response(c)) => assert_eq!(c, &raw),
        other => panic!("unexpected cause {:?}", other),
    }
}

#[test]
fn base64_failure_converts() {
    let raw = base64::decode("!!!!").unwrap_err();
    let e = Error::from(raw.clone());
    assert!(matches!(e.kind(), ErrorKind::Base64));
    assert_eq!(e.message(), "base64 error");
    match e.cause() {
        Some(Cause::Base64(c)) => assert_eq!(c, &raw),
        other => panic!("unexpected cause {:?}", other),
    }
}

#[test]
fn http_builder_failure_converts() {
    let raw = http::Request::builder().method("not a method").body(()).unwrap_err();
    let e = Error::from(raw);
    assert!(matches!(e.kind(), ErrorKind::Http));
    assert_eq!(e.message(), "http error");
    assert!(matches!(e.cause(), Some(Cause::Http(_))));
}

fn invalid_uri() -> http::uri::InvalidUri {
    "http://exa mple.com".parse::<http::Uri>().unwrap_err()
}

fn invalid_uri_parts() -> http::uri::InvalidUriParts {
    let mut parts = http::uri::Parts::default();
    parts.scheme = Some("http".parse().unwrap());
    http::Uri::from_parts(parts).unwrap_err()
}

#[test]
fn uri_failures_get_distinct_kinds() {
    let malformed = Error::from(invalid_uri());
    let assembled = Error::from(invalid_uri_parts());
    assert!(matches!(malformed.kind(), ErrorKind::HttpUriInvalidUri));
    assert!(matches!(assembled.kind(), ErrorKind::HttpUriInvalidUriParts));
    assert_ne!(malformed.message(), assembled.message());
    assert_eq!(malformed.message(), "http uri invalid error");
    assert_eq!(assembled.message(), "http uri invalid uri parts error");
    assert!(matches!(malformed.cause(), Some(Cause::InvalidUri(_))));
    assert!(matches!(assembled.cause(), Some(Cause::InvalidUriParts(_))));
}

#[test]
fn header_to_str_failure_converts() {
    let value = http::header::HeaderValue::from_bytes(b"caf\xe9").unwrap();
    let raw = value.to_str().unwrap_err();
    let e = Error::from(raw);
    assert!(matches!(e.kind(), ErrorKind::HttpHeaderToStrError));
    assert_eq!(e.message(), "http header to str error");
    assert!(matches!(e.cause(), Some(Cause::HeaderToStr(_))));
}

#[test]
fn mime_failure_converts() {
    let raw = "text".parse::<mime::Mime>().unwrap_err();
    let text = raw.to_string();
    let e = Error::from(raw);
    assert!(matches!(e.kind(), ErrorKind::MimeFromStrErr));
    assert_eq!(e.message(), "mime from str error");
    match e.cause() {
        Some(Cause::Mime(c)) => assert_eq!(c.to_string(), text),
        other => panic!("unexpected cause {:?}", other),
    }
}

#[test]
fn openssl_failure_converts() {
    let raw = openssl::error::ErrorStack::get();
    let count = raw.errors().len();
    let e = Error::from(raw);
    assert!(matches!(e.kind(), ErrorKind::OpenSSL));
    assert_eq!(e.message(), "openssl error");
    assert!(!matches!(e.kind(), ErrorKind::Hyper | ErrorKind::HyperTlsError));
    match e.cause() {
        Some(Cause::OpenSsl(c)) => assert_eq!(c.errors().len(), count),
        other => panic!("unexpected cause {:?}", other),
    }
}

#[test]
fn conversion_is_deterministic() {
    for _ in 0..3 {
        let a = Error::from_cause(Cause::Mime("/".parse::<mime::Mime>().unwrap_err()));
        assert!(matches!(a.kind(), ErrorKind::MimeFromStrErr));
        let b = Error::from(invalid_uri());
        assert!(matches!(b.kind(), ErrorKind::HttpUriInvalidUri));
    }
}

#[test]
fn new_records_given_cause_and_kind() {
    let raw = DockerError { message: "conflict".to_string() };
    let e = Error::new(
        Cause::Docker(raw.clone()),
        ErrorKind::ContainerInfo { id: "abc123".to_string() },
    );
    match e.kind() {
        ErrorKind::ContainerInfo { id } => assert_eq!(id, "abc123"),
        other => panic!("unexpected kind {:?}", other),
    }
    match e.cause() {
        Some(Cause::Docker(c)) => assert_eq!(c, &raw),
        other => panic!("unexpected cause {:?}", other),
    }
}

#[test]
fn bare_kind_has_no_cause() {
    let e = Error::from_kind(ErrorKind::NoCertPath);
    assert!(e.cause().is_none());
    assert!(matches!(e.kind(), ErrorKind::NoCertPath));
    let f = Error::from(ErrorKind::Poison { message: "lock".to_string() });
    assert!(f.cause().is_none());
}

#[test]
fn tls_disabled_kind_is_constructible() {
    let e = Error::from_kind(ErrorKind::SslDisabled);
    assert!(matches!(e.kind(), ErrorKind::SslDisabled));
    assert!(e.cause().is_none());
    assert_eq!(e.message(), "Docker SSL support was disabled at compile time");
}

#[test]
fn backtrace_accessor_is_total() {
    let e = Error::from_kind(ErrorKind::Io);
    if let Some(b) = e.backtrace() {
        assert!(!b.is_empty());
    }
}
