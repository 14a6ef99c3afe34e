use docker_error::{Error, ErrorKind};

fn all_kinds() -> Vec<ErrorKind> {
    vec![
        ErrorKind::Io,
        ErrorKind::Envvar,
        ErrorKind::Hyper,
        ErrorKind::Json,
        ErrorKind::Docker,
        ErrorKind::Base64,
        ErrorKind::Response,
        ErrorKind::Http,
        ErrorKind::HttpUriInvalidUri,
        ErrorKind::HttpUriInvalidUriParts,
        ErrorKind::HttpHeaderToStrError,
        ErrorKind::MimeFromStrErr,
        ErrorKind::HyperTlsError,
        ErrorKind::OpenSSL,
        ErrorKind::ContainerInfo { id: "abc123".to_string() },
        ErrorKind::CouldNotConnect { host: "tcp://1.2.3.4:2376".to_string() },
        ErrorKind::NoCertPath,
        ErrorKind::ParseError { wanted: "Container".to_string(), input: "{]".to_string() },
        ErrorKind::SslDisabled,
        ErrorKind::SslError { host: "tcp://10.0.0.1:2376".to_string() },
        ErrorKind::UnsupportedScheme { host: "ftp://host".to_string() },
        ErrorKind::Poison { message: "lock held by a failed thread".to_string() },
        ErrorKind::Unknown { message: "odd reply".to_string() },
    ]
}

#[test]
fn unit_kind_messages() {
    let expected = [
        "io error",
        "envvar error",
        "hyper error",
        "json error",
        "docker error",
        "base64 error",
        "response error",
        "http error",
        "http uri invalid error",
        "http uri invalid uri parts error",
        "http header to str error",
        "mime from str error",
        "hyper tls error",
        "openssl error",
    ];
    let kinds = all_kinds();
    for (k, text) in kinds.iter().zip(expected.iter()) {
        assert_eq!(k.message(), *text);
    }
    assert_eq!(ErrorKind::NoCertPath.message(), "could not find DOCKER_CERT_PATH");
    assert_eq!(
        ErrorKind::SslDisabled.message(),
        "Docker SSL support was disabled at compile time"
    );
}

#[test]
fn structured_kind_messages() {
    let k = ErrorKind::ContainerInfo { id: "abc123".to_string() };
    assert_eq!(k.message(), "could not fetch information about container 'abc123'");
    let k = ErrorKind::ParseError { wanted: "Container".to_string(), input: "{]".to_string() };
    assert_eq!(k.message(), "could not parse JSON for Container from Docker");
    let k = ErrorKind::SslError { host: "tcp://10.0.0.1:2376".to_string() };
    assert_eq!(k.message(), "could not connect to Docker at 'tcp://10.0.0.1:2376' using SSL");
    let k = ErrorKind::UnsupportedScheme { host: "ftp://host".to_string() };
    assert_eq!(k.message(), "do not know how to connect to Docker at 'ftp://host'");
    let k = ErrorKind::Poison { message: "lock held".to_string() };
    assert_eq!(k.message(), "poison error: lock held");
    let k = ErrorKind::Unknown { message: "odd reply".to_string() };
    assert_eq!(k.message(), "unknown error: odd reply");
    let k = ErrorKind::Unknown { message: String::new() };
    assert_eq!(k.message(), "unknown error: ");
}

#[test]
fn could_not_connect_shows_host() {
    let e = Error::from_kind(ErrorKind::CouldNotConnect { host: "tcp://1.2.3.4:2376".to_string() });
    assert!(e.message().contains("tcp://1.2.3.4:2376"));
    assert_eq!(e.message(), "could not connected to Docker at 'tcp://1.2.3.4:2376'");
    assert!(e.cause().is_none());
}

#[test]
fn container_id_shown_verbatim() {
    let e = Error::from_kind(ErrorKind::ContainerInfo { id: "abc123".to_string() });
    assert!(e.message().contains("abc123"));
    match e.kind() {
        ErrorKind::ContainerInfo { id } => assert_eq!(id, "abc123"),
        other => panic!("unexpected kind {:?}", other),
    }
}

#[test]
fn unknown_word_only_in_catch_all() {
    for k in all_kinds() {
        let catch_all = matches!(k, ErrorKind::Unknown { .. });
        assert_eq!(k.message().contains("unknown"), catch_all, "{:?}", k);
    }
}

#[test]
fn error_message_is_kind_message() {
    for k in all_kinds() {
        let text = k.message();
        let e = Error::from_kind(k);
        assert_eq!(e.message(), text);
    }
}
