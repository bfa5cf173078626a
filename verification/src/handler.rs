use vstd::prelude::*;
use vstd::string::StringExecFns;
use vstd::string::StringSliceAdditionalSpecFns;

verus! {

/// What a raw request asks for, read off the first bytes of the
/// connection: the front page, the front page after a deliberate delay, or
/// something this server does not serve.
#[derive(Clone, Copy, PartialEq, Eq, Structural, Debug)]
pub enum RequestKind {
    Root,
    Sleep,
    Unknown,
}

/// The bytes of the request line asking for the front page.
pub open spec fn spec_root_line() -> Seq<u8> {
    "GET / HTTP/1.1\r\n".spec_bytes()
}

/// The bytes of the request line asking for the front page after a delay.
pub open spec fn spec_sleep_line() -> Seq<u8> {
    "GET /sleep HTTP/1.1\r\n".spec_bytes()
}

pub open spec fn spec_starts_with(data: Seq<u8>, prefix: Seq<u8>) -> bool {
    prefix.len() <= data.len() && data.take(prefix.len() as int) == prefix
}

/// Which of the two recognized request lines, if either, the received
/// bytes begin with. The front-page line is tried first, as the server
/// always has.
pub open spec fn spec_classify(data: Seq<u8>) -> RequestKind {
    if spec_starts_with(data, spec_root_line()) {
        RequestKind::Root
    } else if spec_starts_with(data, spec_sleep_line()) {
        RequestKind::Sleep
    } else {
        RequestKind::Unknown
    }
}

/// The status line text owed to a request of kind `k`.
pub open spec fn spec_status(k: RequestKind) -> Seq<char> {
    match k {
        RequestKind::Root => "200 OK"@,
        RequestKind::Sleep => "200 OK"@,
        RequestKind::Unknown => "404 NOT FOUND"@,
    }
}

/// The file whose contents answer a request of kind `k`.
pub open spec fn spec_filename(k: RequestKind) -> Seq<char> {
    match k {
        RequestKind::Root => "hello.html"@,
        RequestKind::Sleep => "hello.html"@,
        RequestKind::Unknown => "404.html"@,
    }
}

/// The full response text: status line, a blank line, then the body.
pub open spec fn spec_response_text(status: Seq<char>, contents: Seq<char>) -> Seq<char> {
    "HTTP/1.1"@ + " "@ + status + "\r\n\r\n"@ + contents
}

/// The decisions a connection handler makes: which canned response a raw
/// request receives, and the text written back. Reading the request bytes,
/// fetching file contents, the delay of the sleep route, and writing the
/// response are the embedding program's work; everything decided from the
/// bytes themselves is decided here.
pub struct ConnectionHandler;

impl ConnectionHandler {
    /// Whether `data` begins with the byte sequence `prefix`.
    pub fn starts_with(data: &[u8], prefix: &[u8]) -> (r: bool)
        ensures
            r == spec_starts_with(data@, prefix@),
    {
        if prefix.len() > data.len() {
            return false;
        }
        let n = prefix.len();
        for k in 0..n
            invariant
                n == prefix@.len() <= data@.len(),
                forall|i: int| 0 <= i < k ==> data@[i] == prefix@[i],
        {
            if data[k] != prefix[k] {
                assert(data@.take(n as int)[k as int] != prefix@[k as int]);
                return false;
            }
        }
        proof {
            assert(data@.take(n as int) =~= prefix@);
        }
        true
    }

    /// Decide what the received bytes ask for. On the sleep route the
    /// caller owes the delay before answering; the classification itself
    /// involves no waiting.
    pub fn classify(data: &[u8]) -> (k: RequestKind)
        ensures
            k == spec_classify(data@),
    {
        let root = "GET / HTTP/1.1\r\n".as_bytes();
        let sleep = "GET /sleep HTTP/1.1\r\n".as_bytes();
        if ConnectionHandler::starts_with(data, root) {
            RequestKind::Root
        } else if ConnectionHandler::starts_with(data, sleep) {
            RequestKind::Sleep
        } else {
            RequestKind::Unknown
        }
    }

    /// The status line and the name of the file that answer the received
    /// bytes: the front page for either recognized request line, the
    /// not-found page for anything else.
    pub fn get_response(data: &[u8]) -> (r: (&'static str, &'static str))
        ensures
            r.0@ == spec_status(spec_classify(data@)),
            r.1@ == spec_filename(spec_classify(data@)),
    {
        match ConnectionHandler::classify(data) {
            RequestKind::Root => ("200 OK", "hello.html"),
            RequestKind::Sleep => ("200 OK", "hello.html"),
            RequestKind::Unknown => ("404 NOT FOUND", "404.html"),
        }
    }

    /// Build the response text written back on the connection: the HTTP
    /// version and status, a blank line, then the body.
    pub fn format_response(status: &str, contents: &str) -> (r: String)
        ensures
            r@ == spec_response_text(status@, contents@),
    {
        let mut response = String::from_str("HTTP/1.1");
        response.append(" ");
        response.append(status);
        response.append("\r\n\r\n");
        response.append(contents);
        response
    }
}

} // verus!
