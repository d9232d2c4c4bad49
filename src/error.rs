use std::io::Error as IoFailure;
use reqwest::Error as TransportFailure;
use vstd::prelude::*;

verus! {

/// `reqwest::Error`, carried opaque inside a transport error so that its
/// cause chain can be reported.
#[verifier::external_type_specification]
#[verifier::external_body]
pub struct ExTransportFailure(TransportFailure);

/// `std::io::Error`, carried opaque inside a local I/O error.
#[verifier::external_type_specification]
#[verifier::external_body]
pub struct ExIoFailure(IoFailure);

/// Every way in which an operation of the library can fail.
#[allow(inconsistent_fields)]
#[derive(Debug)]
pub enum ErrorKind {
    /// The request for the url `path` could not be sent.
    DownloadFailure { path: String },
    /// No repository was given.
    EmptyText,
    /// The API answered with a status other than `200`, and this body.
    GitHubStatusFailure { status: u16, msg: String },
    /// The picker was ended by a signal.
    Interrupted,
    /// The repository is not written `owner/name`.
    MalformedRepo { repo: String },
    /// The body of the url `path` could not be read.
    ReadFailure { path: String },
    /// A response lacks the field `key`.
    ResponseKeyError { key: String },
    /// The branch `tree` was not found in the repository `repo`.
    TreeDoesNotExist { tree: String, repo: String },
    /// A failure of the HTTP client.
    HttpClientError(TransportFailure),
    /// A failure of local I/O.
    IoError(IoFailure),
    /// Any other failure, described by `status`.
    Other { status: String },
}

/// An error of the library: one kind, boxed where it travels.
#[derive(Debug)]
pub struct Error {
    pub kind: ErrorKind,
}

impl Error {
    /// A boxed error of the given kind.
    pub fn new(kind: ErrorKind) -> (r: Box<Error>)
        ensures
            r.kind == kind,
    {
        Box::new(Error { kind })
    }

    /// A failed result with an error of the given kind.
    pub fn err<T>(kind: ErrorKind) -> (r: Result<T, Box<Error>>)
        ensures
            r is Err,
            r->Err_0.kind == kind,
    {
        Err(Error::new(kind))
    }

    /// The kind of this error.
    pub fn kind(&self) -> (r: &ErrorKind)
        ensures
            *r == self.kind,
    {
        &self.kind
    }

    /// The one-line message of this error.
    pub fn message(&self) -> (r: String)
        ensures
            r@ == message_of(self.kind),
    {
        message(&self.kind)
    }

    /// Whether the error wraps an underlying cause that can be reported too:
    /// a transport error or a local I/O error.
    pub fn has_source(&self) -> (r: bool)
        ensures
            r == (self.kind is HttpClientError || self.kind is IoError),
    {
        match &self.kind {
            ErrorKind::HttpClientError(_) => true,
            ErrorKind::IoError(_) => true,
            _ => false,
        }
    }
}

impl From<TransportFailure> for Box<Error> {
    fn from(e: TransportFailure) -> (r: Box<Error>) {
        Error::new(ErrorKind::HttpClientError(e))
    }
}

impl vstd::std_specs::convert::FromSpecImpl<TransportFailure> for Box<Error> {
    open spec fn obeys_from_spec() -> bool {
        true
    }

    open spec fn from_spec(e: TransportFailure) -> Box<Error> {
        Box::new(Error { kind: ErrorKind::HttpClientError(e) })
    }
}

impl From<IoFailure> for Box<Error> {
    fn from(e: IoFailure) -> (r: Box<Error>) {
        Error::new(ErrorKind::IoError(e))
    }
}

impl vstd::std_specs::convert::FromSpecImpl<IoFailure> for Box<Error> {
    open spec fn obeys_from_spec() -> bool {
        true
    }

    open spec fn from_spec(e: IoFailure) -> Box<Error> {
        Box::new(Error { kind: ErrorKind::IoError(e) })
    }
}

/// What `reqwest::StatusCode`'s `Display` writes for a status code: the
/// number, a space, then the canonical reason or the text for an unknown code.
pub uninterp spec fn status_text(code: u16) -> Seq<char>;

/// Whether a number is one that `reqwest::StatusCode::from_u16` accepts.
pub open spec fn is_http_status(code: u16) -> bool {
    100 <= code <= 999
}

/// How a status is written in messages: as `reqwest::StatusCode` writes it,
/// where the number is an HTTP status; else as its decimal digits.
pub open spec fn status_display_of(code: u16) -> Seq<char> {
    if is_http_status(code) {
        status_text(code)
    } else {
        decimal_of(code as nat)
    }
}

/// Relies on `reqwest::StatusCode::from_u16`, which accepts exactly the
/// numbers 100 to 999, and on `StatusCode`'s `Display`, whose text depends on
/// the number alone.
#[verifier::external_body]
fn status_code_text(code: u16) -> (r: String)
    requires
        is_http_status(code),
    ensures
        r@ == status_text(code),
{
    reqwest::StatusCode::from_u16(code).unwrap().to_string()
}

/// How a status is written in messages.
pub fn status_display(code: u16) -> (r: String)
    ensures
        r@ == status_display_of(code),
{
    if 100 <= code && code <= 999 {
        status_code_text(code)
    } else {
        decimal(code)
    }
}

/// The decimal digits of `n`, most significant first, without leading zeros.
pub open spec fn decimal_of(n: nat) -> Seq<char>
    decreases n,
{
    if n < 10 {
        seq![digit_of(n)]
    } else {
        decimal_of(n / 10) + seq![digit_of(n % 10)]
    }
}

/// The character of a digit below ten.
pub open spec fn digit_of(d: nat) -> char {
    ((d + 48) as u8) as char
}

/// The one-line message of each kind of error.
pub open spec fn message_of(k: ErrorKind) -> Seq<char> {
    match k {
        ErrorKind::DownloadFailure { path } => "Downloading from "@ + path@ + " caused an error"@,
        ErrorKind::EmptyText => "Text was not provided"@,
        ErrorKind::GitHubStatusFailure { status, msg } =>
            "GitHub API failure with response status "@ + status_display_of(status) + ": "@ + msg@,
        ErrorKind::Interrupted => "Fzf was Interrupted"@,
        ErrorKind::MalformedRepo { repo } => "The given repo "@ + repo@ + " is malformed."@,
        ErrorKind::ReadFailure { path } => "Reading from "@ + path@ + " caused an error"@,
        ErrorKind::ResponseKeyError { key } => "The response is missing the key: "@ + key@,
        ErrorKind::TreeDoesNotExist { tree, repo } => "The tree "@ + tree@ + " does not exist for repo "@ + repo@
            + ". If you did not specify a tree, specify master (by default, the tree is main)."@,
        ErrorKind::HttpClientError(_) => "Network request failure"@,
        ErrorKind::IoError(_) => "I/O failure"@,
        ErrorKind::Other { status } => "An error occured: "@ + status@,
    }
}

/// The decimal digits of `n`.
pub fn decimal(n: u16) -> (r: String)
    ensures
        r@ == decimal_of(n as nat),
    decreases n,
{
    let d: u16 = n % 10;
    let digit: &str = if d == 0 {
        "0"
    } else if d == 1 {
        "1"
    } else if d == 2 {
        "2"
    } else if d == 3 {
        "3"
    } else if d == 4 {
        "4"
    } else if d == 5 {
        "5"
    } else if d == 6 {
        "6"
    } else if d == 7 {
        "7"
    } else if d == 8 {
        "8"
    } else {
        "9"
    };
    proof {
        reveal_strlit("0");
        reveal_strlit("1");
        reveal_strlit("2");
        reveal_strlit("3");
        reveal_strlit("4");
        reveal_strlit("5");
        reveal_strlit("6");
        reveal_strlit("7");
        reveal_strlit("8");
        reveal_strlit("9");
    }
    assert(digit@ =~= seq![digit_of(d as nat)]);
    if n < 10 {
        String::from_str(digit)
    } else {
        let mut s = decimal(n / 10);
        s.append(digit);
        s
    }
}

/// The one-line message of a kind of error.
pub fn message(k: &ErrorKind) -> (r: String)
    ensures
        r@ == message_of(*k),
{
    let mut s: String;
    match k {
        ErrorKind::DownloadFailure { path } => {
            s = String::from_str("Downloading from ");
            s.append(path.as_str());
            s.append(" caused an error");
            proof { reveal_strlit("Downloading from "); reveal_strlit(" caused an error"); }
        },
        ErrorKind::EmptyText => {
            s = String::from_str("Text was not provided");
            proof { reveal_strlit("Text was not provided"); }
        },
        ErrorKind::GitHubStatusFailure { status, msg } => {
            s = String::from_str("GitHub API failure with response status ");
            let code = status_display(*status);
            s.append(code.as_str());
            s.append(": ");
            s.append(msg.as_str());
            proof { reveal_strlit("GitHub API failure with response status "); reveal_strlit(": "); }
        },
        ErrorKind::Interrupted => {
            s = String::from_str("Fzf was Interrupted");
            proof { reveal_strlit("Fzf was Interrupted"); }
        },
        ErrorKind::MalformedRepo { repo } => {
            s = String::from_str("The given repo ");
            s.append(repo.as_str());
            s.append(" is malformed.");
            proof { reveal_strlit("The given repo "); reveal_strlit(" is malformed."); }
        },
        ErrorKind::ReadFailure { path } => {
            s = String::from_str("Reading from ");
            s.append(path.as_str());
            s.append(" caused an error");
            proof { reveal_strlit("Reading from "); reveal_strlit(" caused an error"); }
        },
        ErrorKind::ResponseKeyError { key } => {
            s = String::from_str("The response is missing the key: ");
            s.append(key.as_str());
            proof { reveal_strlit("The response is missing the key: "); }
        },
        ErrorKind::TreeDoesNotExist { tree, repo } => {
            s = String::from_str("The tree ");
            s.append(tree.as_str());
            s.append(" does not exist for repo ");
            s.append(repo.as_str());
            s.append(". If you did not specify a tree, specify master (by default, the tree is main).");
            proof {
                reveal_strlit("The tree ");
                reveal_strlit(" does not exist for repo ");
                reveal_strlit(". If you did not specify a tree, specify master (by default, the tree is main).");
            }
        },
        ErrorKind::HttpClientError(_) => {
            s = String::from_str("Network request failure");
            proof { reveal_strlit("Network request failure"); }
        },
        ErrorKind::IoError(_) => {
            s = String::from_str("I/O failure");
            proof { reveal_strlit("I/O failure"); }
        },
        ErrorKind::Other { status } => {
            s = String::from_str("An error occured: ");
            s.append(status.as_str());
            proof { reveal_strlit("An error occured: "); }
        },
    }
    s
}

} // verus!
