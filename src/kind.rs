use vstd::prelude::*;

verus! {

/// The category of a failure, with the context that makes it actionable.
#[derive(Debug, Clone)]
pub enum ErrorKind {
    /// A local I/O failure.
    Io,
    /// An environment variable could not be read.
    Envvar,
    /// The HTTP transport failed.
    Hyper,
    /// JSON could not be (de)serialized.
    Json,
    /// The daemon reported an error.
    Docker,
    /// Base64 text could not be decoded.
    Base64,
    /// A response envelope could not be decoded.
    Response,
    /// An HTTP request or response could not be built.
    Http,
    /// URI text is malformed.
    HttpUriInvalidUri,
    /// URI parts do not assemble into a URI.
    HttpUriInvalidUriParts,
    /// A header value is not visible ASCII.
    HttpHeaderToStrError,
    /// A media type does not parse.
    MimeFromStrErr,
    /// The TLS transport failed.
    HyperTlsError,
    /// The cryptographic library failed.
    OpenSSL,
    /// Information about the container `id` could not be fetched.
    ContainerInfo { id: String },
    /// The daemon at `host` could not be reached.
    CouldNotConnect { host: String },
    /// The location of the TLS certificates is not known.
    NoCertPath,
    /// `input` did not parse as JSON for `wanted`.
    ParseError { wanted: String, input: String },
    /// TLS was asked for, but the build left TLS support out.
    SslDisabled,
    /// TLS setup with the daemon at `host` failed.
    SslError { host: String },
    /// `host` names a connection scheme that is not supported.
    UnsupportedScheme { host: String },
    /// A lock was poisoned by a thread that failed while holding it.
    Poison { message: String },
    /// Any other failure.
    Unknown { message: String },
}

/// `s` holds `w` as a contiguous run of characters.
pub open spec fn contains(s: Seq<char>, w: Seq<char>) -> bool {
    exists|i: int| 0 <= i && i + w.len() <= s.len() && #[trigger] s.subrange(i, i + w.len()) == w
}

impl ErrorKind {
    /// The sentence shown for a failure of this kind.
    pub open spec fn display_text(&self) -> Seq<char> {
        match self {
            ErrorKind::Io => "io error"@,
            ErrorKind::Envvar => "envvar error"@,
            ErrorKind::Hyper => "hyper error"@,
            ErrorKind::Json => "json error"@,
            ErrorKind::Docker => "docker error"@,
            ErrorKind::Base64 => "base64 error"@,
            ErrorKind::Response => "response error"@,
            ErrorKind::Http => "http error"@,
            ErrorKind::HttpUriInvalidUri => "http uri invalid error"@,
            ErrorKind::HttpUriInvalidUriParts => "http uri invalid uri parts error"@,
            ErrorKind::HttpHeaderToStrError => "http header to str error"@,
            ErrorKind::MimeFromStrErr => "mime from str error"@,
            ErrorKind::HyperTlsError => "hyper tls error"@,
            ErrorKind::OpenSSL => "openssl error"@,
            ErrorKind::ContainerInfo { id } =>
                "could not fetch information about container '"@ + id@ + "'"@,
            ErrorKind::CouldNotConnect { host } =>
                "could not connected to Docker at '"@ + host@ + "'"@,
            ErrorKind::NoCertPath => "could not find DOCKER_CERT_PATH"@,
            ErrorKind::ParseError { wanted, input } =>
                "could not parse JSON for "@ + wanted@ + " from Docker"@,
            ErrorKind::SslDisabled => "Docker SSL support was disabled at compile time"@,
            ErrorKind::SslError { host } =>
                "could not connect to Docker at '"@ + host@ + "' using SSL"@,
            ErrorKind::UnsupportedScheme { host } =>
                "do not know how to connect to Docker at '"@ + host@ + "'"@,
            ErrorKind::Poison { message } => "poison error: "@ + message@,
            ErrorKind::Unknown { message } => "unknown error: "@ + message@,
        }
    }

    /// The catch-all kind, for failures that fit no other category.
    pub open spec fn is_catch_all(&self) -> bool {
        self is Unknown
    }

    /// None of the free-text fields of this kind holds `w`.
    pub open spec fn fields_free_of(&self, w: Seq<char>) -> bool {
        match self {
            ErrorKind::ContainerInfo { id } => !contains(id@, w),
            ErrorKind::CouldNotConnect { host } => !contains(host@, w),
            ErrorKind::ParseError { wanted, input } => !contains(wanted@, w),
            ErrorKind::SslError { host } => !contains(host@, w),
            ErrorKind::UnsupportedScheme { host } => !contains(host@, w),
            ErrorKind::Poison { message } => !contains(message@, w),
            ErrorKind::Unknown { message } => !contains(message@, w),
            _ => true,
        }
    }

    /// Renders the sentence for this kind, with its fields filled in.
    pub fn message(&self) -> (r: String)
        ensures
            r@ == self.display_text(),
    {
        match self {
            ErrorKind::Io => String::from_str("io error"),
            ErrorKind::Envvar => String::from_str("envvar error"),
            ErrorKind::Hyper => String::from_str("hyper error"),
            ErrorKind::Json => String::from_str("json error"),
            ErrorKind::Docker => String::from_str("docker error"),
            ErrorKind::Base64 => String::from_str("base64 error"),
            ErrorKind::Response => String::from_str("response error"),
            ErrorKind::Http => String::from_str("http error"),
            ErrorKind::HttpUriInvalidUri => String::from_str("http uri invalid error"),
            ErrorKind::HttpUriInvalidUriParts => String::from_str(
                "http uri invalid uri parts error",
            ),
            ErrorKind::HttpHeaderToStrError => String::from_str("http header to str error"),
            ErrorKind::MimeFromStrErr => String::from_str("mime from str error"),
            ErrorKind::HyperTlsError => String::from_str("hyper tls error"),
            ErrorKind::OpenSSL => String::from_str("openssl error"),
            ErrorKind::ContainerInfo { id } => surround(
                "could not fetch information about container '",
                id,
                "'",
            ),
            ErrorKind::CouldNotConnect { host } => surround(
                "could not connected to Docker at '",
                host,
                "'",
            ),
            ErrorKind::NoCertPath => String::from_str("could not find DOCKER_CERT_PATH"),
            ErrorKind::ParseError { wanted, input } => surround(
                "could not parse JSON for ",
                wanted,
                " from Docker",
            ),
            ErrorKind::SslDisabled => String::from_str(
                "Docker SSL support was disabled at compile time",
            ),
            ErrorKind::SslError { host } => surround(
                "could not connect to Docker at '",
                host,
                "' using SSL",
            ),
            ErrorKind::UnsupportedScheme { host } => surround(
                "do not know how to connect to Docker at '",
                host,
                "'",
            ),
            ErrorKind::Poison { message } => prefixed("poison error: ", message),
            ErrorKind::Unknown { message } => prefixed("unknown error: ", message),
        }
    }
}

/// The displayed text field of a kind, if it has one.
pub open spec fn shown_field(k: ErrorKind) -> Option<Seq<char>> {
    match k {
        ErrorKind::ContainerInfo { id } => Some(id@),
        ErrorKind::CouldNotConnect { host } => Some(host@),
        ErrorKind::ParseError { wanted, input } => Some(wanted@),
        ErrorKind::SslError { host } => Some(host@),
        ErrorKind::UnsupportedScheme { host } => Some(host@),
        ErrorKind::Poison { message } => Some(message@),
        ErrorKind::Unknown { message } => Some(message@),
        _ => None,
    }
}

/// The text of a kind holds its displayed field verbatim: the container id,
/// the host, the name of what was parsed, or the message.
pub proof fn fields_shown(k: ErrorKind)
    ensures
        shown_field(k) matches Some(f) ==> contains(k.display_text(), f),
{
    match k {
        ErrorKind::ContainerInfo { id } => lemma_shown("could not fetch information about container '"@, id@, "'"@),
        ErrorKind::CouldNotConnect { host } => lemma_shown("could not connected to Docker at '"@, host@, "'"@),
        ErrorKind::ParseError { wanted, input } => lemma_shown("could not parse JSON for "@, wanted@, " from Docker"@),
        ErrorKind::SslError { host } => lemma_shown("could not connect to Docker at '"@, host@, "' using SSL"@),
        ErrorKind::UnsupportedScheme { host } => lemma_shown("do not know how to connect to Docker at '"@, host@, "'"@),
        ErrorKind::Poison { message } => {
            lemma_shown("poison error: "@, message@, Seq::empty());
            assert("poison error: "@ + message@ + Seq::empty() =~= k.display_text());
        },
        ErrorKind::Unknown { message } => {
            lemma_shown("unknown error: "@, message@, Seq::empty());
            assert("unknown error: "@ + message@ + Seq::empty() =~= k.display_text());
        },
        _ => {},
    }
}

/// The word "unknown" appears in the text of a kind exactly when the kind is
/// the catch-all, provided no field supplied by the caller holds that word.
pub proof fn unknown_only_in_catch_all(k: ErrorKind)
    requires
        k.fields_free_of("unknown"@),
    ensures
        contains(k.display_text(), "unknown"@) <==> k.is_catch_all(),
{
    reveal_strlit("unknown");
    let w = "unknown"@;
    match k {
        ErrorKind::Io => {
            reveal_strlit("io error");
            lemma_occurrence_has_unk("io error"@);
        },
        ErrorKind::Envvar => {
            reveal_strlit("envvar error");
            lemma_occurrence_has_unk("envvar error"@);
        },
        ErrorKind::Hyper => {
            reveal_strlit("hyper error");
            lemma_occurrence_has_unk("hyper error"@);
        },
        ErrorKind::Json => {
            reveal_strlit("json error");
            lemma_occurrence_has_unk("json error"@);
        },
        ErrorKind::Docker => {
            reveal_strlit("docker error");
            lemma_occurrence_has_unk("docker error"@);
        },
        ErrorKind::Base64 => {
            reveal_strlit("base64 error");
            lemma_occurrence_has_unk("base64 error"@);
        },
        ErrorKind::Response => {
            reveal_strlit("response error");
            lemma_occurrence_has_unk("response error"@);
        },
        ErrorKind::Http => {
            reveal_strlit("http error");
            lemma_occurrence_has_unk("http error"@);
        },
        ErrorKind::HttpUriInvalidUri => {
            reveal_strlit("http uri invalid error");
            lemma_occurrence_has_unk("http uri invalid error"@);
        },
        ErrorKind::HttpUriInvalidUriParts => {
            reveal_strlit("http uri invalid uri parts error");
            lemma_occurrence_has_unk("http uri invalid uri parts error"@);
        },
        ErrorKind::HttpHeaderToStrError => {
            reveal_strlit("http header to str error");
            lemma_occurrence_has_unk("http header to str error"@);
        },
        ErrorKind::MimeFromStrErr => {
            reveal_strlit("mime from str error");
            lemma_occurrence_has_unk("mime from str error"@);
        },
        ErrorKind::HyperTlsError => {
            reveal_strlit("hyper tls error");
            lemma_occurrence_has_unk("hyper tls error"@);
        },
        ErrorKind::OpenSSL => {
            reveal_strlit("openssl error");
            lemma_occurrence_has_unk("openssl error"@);
        },
        ErrorKind::NoCertPath => {
            reveal_strlit("could not find DOCKER_CERT_PATH");
            lemma_occurrence_has_unk("could not find DOCKER_CERT_PATH"@);
        },
        ErrorKind::SslDisabled => {
            reveal_strlit("Docker SSL support was disabled at compile time");
            lemma_occurrence_has_unk("Docker SSL support was disabled at compile time"@);
        },
        ErrorKind::ContainerInfo { id } => {
            reveal_strlit("could not fetch information about container '");
            reveal_strlit("'");
            lemma_occurrence_has_unk("could not fetch information about container '"@);
            lemma_occurrence_has_unk("'"@);
            lemma_free_around("could not fetch information about container '"@, id@, "'"@, w);
        },
        ErrorKind::CouldNotConnect { host } => {
            reveal_strlit("could not connected to Docker at '");
            reveal_strlit("'");
            lemma_occurrence_has_unk("could not connected to Docker at '"@);
            lemma_occurrence_has_unk("'"@);
            lemma_free_around("could not connected to Docker at '"@, host@, "'"@, w);
        },
        ErrorKind::ParseError { wanted, input } => {
            reveal_strlit("could not parse JSON for ");
            reveal_strlit(" from Docker");
            lemma_occurrence_has_unk("could not parse JSON for "@);
            lemma_occurrence_has_unk(" from Docker"@);
            lemma_free_around("could not parse JSON for "@, wanted@, " from Docker"@, w);
        },
        ErrorKind::SslError { host } => {
            reveal_strlit("could not connect to Docker at '");
            reveal_strlit("' using SSL");
            lemma_occurrence_has_unk("could not connect to Docker at '"@);
            lemma_occurrence_has_unk("' using SSL"@);
            lemma_free_around("could not connect to Docker at '"@, host@, "' using SSL"@, w);
        },
        ErrorKind::UnsupportedScheme { host } => {
            reveal_strlit("do not know how to connect to Docker at '");
            reveal_strlit("'");
            lemma_occurrence_has_unk("do not know how to connect to Docker at '"@);
            lemma_occurrence_has_unk("'"@);
            lemma_free_around("do not know how to connect to Docker at '"@, host@, "'"@, w);
        },
        ErrorKind::Poison { message } => {
            reveal_strlit("poison error: ");
            lemma_occurrence_has_unk("poison error: "@);
            lemma_free_around("poison error: "@, message@, Seq::empty(), w);
            assert("poison error: "@ + message@ + Seq::empty() =~= k.display_text());
        },
        ErrorKind::Unknown { message } => {
            reveal_strlit("unknown error: ");
            let z: int = 0;
            assert(k.display_text().subrange(z, z + w.len()) =~= w);
        },
    }
}

/// `f` appears in `a + f + b`, right after `a`.
proof fn lemma_shown(a: Seq<char>, f: Seq<char>, b: Seq<char>)
    ensures
        contains(a + f + b, f),
{
    assert((a + f + b).subrange(a.len() as int, (a.len() + f.len()) as int) =~= f);
}

/// Any occurrence of "unknown" starts with the letters u, n, k.
proof fn lemma_occurrence_has_unk(s: Seq<char>)
    ensures
        contains(s, "unknown"@) ==> exists|i: int|
            0 <= i && i + 2 < s.len() && #[trigger] s[i] == 'u' && s[i + 1] == 'n' && s[i + 2]
                == 'k',
{
    reveal_strlit("unknown");
    let w = "unknown"@;
    if contains(s, w) {
        let i = choose|i: int|
            0 <= i && i + w.len() <= s.len() && #[trigger] s.subrange(i, i + w.len()) == w;
        assert(s.subrange(i, i + w.len())[0] == w[0]);
        assert(s.subrange(i, i + w.len())[1] == w[1]);
        assert(s.subrange(i, i + w.len())[2] == w[2]);
        assert(s[i] == 'u');
    }
}

/// An occurrence of `w` in `a + f + b` that lies in none of the three parts
/// would have to hold the last character of `a` or the first of `b`.
proof fn lemma_free_around(a: Seq<char>, f: Seq<char>, b: Seq<char>, w: Seq<char>)
    requires
        !contains(a, w),
        !contains(f, w),
        !contains(b, w),
        a.len() > 0,
        !w.contains(a.last()),
        b.len() == 0 || !w.contains(b[0]),
    ensures
        !contains(a + f + b, w),
{
    let t = a + f + b;
    let n = w.len() as int;
    if contains(t, w) {
        let i = choose|i: int| 0 <= i && i + n <= t.len() && #[trigger] t.subrange(i, i + n) == w;
        if i + n <= a.len() {
            assert(a.subrange(i, i + n) =~= t.subrange(i, i + n));
        } else if i < a.len() {
            let j = a.len() - 1 - i;
            assert(t.subrange(i, i + n)[j] == t[a.len() - 1]);
            assert(w[j] == a.last());
        } else if i + n <= a.len() + f.len() {
            assert(f.subrange(i - a.len(), i - a.len() + n) =~= t.subrange(i, i + n));
        } else if i < a.len() + f.len() {
            let j = a.len() + f.len() - i;
            assert(t.subrange(i, i + n)[j] == t[(a.len() + f.len()) as int]);
            assert(w[j] == b[0]);
        } else {
            let m = i - a.len() - f.len();
            assert(b.subrange(m, m + n) =~= t.subrange(i, i + n));
        }
    }
}

/// `before`, then `field`, then `after`, as one string.
fn surround(before: &str, field: &String, after: &str) -> (r: String)
    ensures
        r@ == before@ + field@ + after@,
{
    let mut r = String::from_str(before);
    r.append(field.as_str());
    r.append(after);
    r
}

/// `before`, then `field`, as one string.
fn prefixed(before: &str, field: &String) -> (r: String)
    ensures
        r@ == before@ + field@,
{
    let mut r = String::from_str(before);
    r.append(field.as_str());
    r
}

} // verus!
