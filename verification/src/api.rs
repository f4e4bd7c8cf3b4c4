//! The local API's logic: token authentication, error bodies, request-line parsing
//! and routing, and the checks its handlers make before doing any work.

use vstd::prelude::*;
use crate::ids::{new_uuid_v4, is_v4, uuid_simple, uuid_simple_text};
use crate::plan::{OsaiPlan, plan_validation, validation_error_message};
use crate::shared::{
    is_alphanumeric, is_loopback_spec, is_loopback_url, split_whitespace, split_ws, trailing_count, unicode_alphanumeric,
    words_view,
};
use crate::text::{
    chars_of, concat, contains_spec, contains_str, find_spec, find_str, owned, path_join, path_join_spec, push_char,
    str_eq, string_of, string_of_range, trim, trim_spec, trim_start_all, trim_start_matches,
};

verus! {

// ---------------------------------------------------------------------------
// Token authentication
// ---------------------------------------------------------------------------

/// Token source for the auth status response.
#[derive(Debug, Clone, Copy, PartialEq, Eq, Structural)]
pub enum TokenSource {
    /// Token was set via the `OSAI_API_TOKEN` environment variable.
    Env,
    /// Token was loaded from the token file.
    File,
    /// No token configured: auth is disabled.
    Disabled,
}

/// The name of a token source.
pub open spec fn token_source_name(t: TokenSource) -> Seq<char> {
    match t {
        TokenSource::Env => "env"@,
        TokenSource::File => "file"@,
        TokenSource::Disabled => "disabled"@,
    }
}

impl TokenSource {
    /// The name of this token source.
    pub fn as_str(&self) -> (s: &'static str)
        ensures
            s@ == token_source_name(*self),
    {
        match self {
            TokenSource::Env => "env",
            TokenSource::File => "file",
            TokenSource::Disabled => "disabled",
        }
    }
}

/// An optional string's text.
pub open spec fn opt_str(o: Option<&str>) -> Option<Seq<char>> {
    match o {
        Some(s) => Some(s@),
        None => None,
    }
}

/// The token the environment provides: its value when non-empty.
pub open spec fn env_token_spec(env: Option<Seq<char>>) -> Option<Seq<char>> {
    match env {
        Some(e) => if e.len() > 0 {
            Some(e)
        } else {
            None
        },
        None => None,
    }
}

/// The configured token: the environment's when non-empty, else the token file's
/// contents with surrounding white space removed, when that is non-empty.
pub open spec fn configured_token(env: Option<Seq<char>>, file: Option<Seq<char>>) -> Option<Seq<char>> {
    match env_token_spec(env) {
        Some(e) => Some(e),
        None => match file {
            Some(c) => if trim_spec(c).len() > 0 {
                Some(trim_spec(c))
            } else {
                None
            },
            None => None,
        },
    }
}

/// Where the token comes from: the environment when it holds a non-empty token, else
/// the token file when it exists, else nowhere.
pub fn token_source_from(env_token: Option<&str>, token_file_exists: bool) -> (t: TokenSource)
    ensures
        t == (if env_token_spec(opt_str(env_token)) is Some {
            TokenSource::Env
        } else if token_file_exists {
            TokenSource::File
        } else {
            TokenSource::Disabled
        }),
{
    match env_token {
        Some(e) => if !e.is_empty() {
            return TokenSource::Env;
        },
        None => {},
    }
    if token_file_exists {
        TokenSource::File
    } else {
        TokenSource::Disabled
    }
}

/// The path of the token file: `.config/osai/api-token` under the home directory, or
/// `/tmp/osai-api-token` when there is none.
pub fn token_file_path(home: Option<&str>) -> (p: String)
    ensures
        p@ == match home {
            Some(h) => path_join_spec(path_join_spec(path_join_spec(h@, ".config"@), "osai"@), "api-token"@),
            None => "/tmp/osai-api-token"@,
        },
{
    match home {
        Some(h) => {
            let a = path_join(h, ".config");
            let b = path_join(a.as_str(), "osai");
            path_join(b.as_str(), "api-token")
        },
        None => owned("/tmp/osai-api-token"),
    }
}

/// The configured token (see `configured_token`), given the environment's token and
/// the token file's contents.
pub fn get_token(env_token: Option<&str>, file_contents: Option<&str>) -> (r: Option<String>)
    ensures
        match r {
            Some(t) => configured_token(opt_str(env_token), opt_str(file_contents)) == Some(t@),
            None => configured_token(opt_str(env_token), opt_str(file_contents)) is None,
        },
{
    if let Some(e) = env_token {
        if !e.is_empty() {
            return Some(owned(e));
        }
    }
    match file_contents {
        Some(c) => {
            let t = trim(c);
            if t.as_str().is_empty() {
                None
            } else {
                Some(t)
            }
        },
        None => None,
    }
}

/// Byte comparison whose running time does not depend on where the inputs differ.
pub fn constant_time_eq(a: &[u8], b: &[u8]) -> (r: bool)
    ensures
        r == (a@ == b@),
{
    if a.len() != b.len() {
        return false;
    }
    let mut diff: u8 = 0;
    let mut i: usize = 0;
    while i < a.len()
        invariant
            0 <= i <= a@.len(),
            a@.len() == b@.len(),
            (diff == 0) == (forall|k: int| 0 <= k < i ==> a@[k] == b@[k]),
        decreases a@.len() - i,
    {
        let x = a[i];
        let y = b[i];
        let d = diff;
        assert((d | (x ^ y)) == 0u8 <==> (d == 0u8 && x == y)) by (bit_vector);
        diff = diff | (x ^ y);
        i = i + 1;
    }
    proof {
        if diff == 0 {
            assert(a@ =~= b@);
        }
    }
    diff == 0
}

/// Whether `provided` is the configured token; with no token configured, nothing is.
/// The comparison runs over the UTF-8 bytes in constant time.
pub fn validate_token(provided: &str, configured: Option<&str>) -> (r: bool)
    ensures
        r == (configured matches Some(e) && provided@ == e@),
{
    match configured {
        Some(expected) => {
            let r = constant_time_eq(provided.as_bytes(), expected.as_bytes());
            proof {
                vstd::utf8::encode_utf8_decode_utf8(provided@);
                vstd::utf8::encode_utf8_decode_utf8(expected@);
            }
            r
        },
        None => false,
    }
}

/// A fresh token: the simple text of two random version-4 UUIDs, 64 characters.
pub open spec fn is_fresh_token(t: Seq<char>) -> bool {
    &&& t.len() == 64
    &&& exists|a: u128, b: u128| is_v4(a) && is_v4(b) && t == uuid_simple(a) + uuid_simple(b)
}

/// A fresh token: the simple text of two random UUIDs, 64 hex digits in all.
pub fn generate_token() -> (t: String)
    ensures
        is_fresh_token(t@),
{
    let a = new_uuid_v4();
    let b = new_uuid_v4();
    let x = uuid_simple_text(a);
    let y = uuid_simple_text(b);
    let t = concat(x.as_str(), y.as_str());
    assert(is_v4(a) && is_v4(b) && t@ == uuid_simple(a) + uuid_simple(b));
    t
}

/// The token to write to a token file: none when the file exists, else a fresh one.
pub fn ensure_token_file_at(path_exists: bool) -> (r: Option<String>)
    ensures
        path_exists <==> r is None,
        r matches Some(t) ==> is_fresh_token(t@),
{
    if path_exists {
        None
    } else {
        Some(generate_token())
    }
}

/// The token file's path under `home` and the token to write there: none when the
/// file exists, else a fresh one.
pub fn ensure_token_file(home: Option<&str>, path_exists: bool) -> (r: (String, Option<String>))
    ensures
        r.0@ == match home {
            Some(h) => path_join_spec(path_join_spec(path_join_spec(h@, ".config"@), "osai"@), "api-token"@),
            None => "/tmp/osai-api-token"@,
        },
        path_exists <==> r.1 is None,
        r.1 matches Some(t) ==> is_fresh_token(t@),
{
    (token_file_path(home), ensure_token_file_at(path_exists))
}

/// Auth status response body.
#[derive(Debug)]
pub struct AuthStatusResponse {
    pub ok: bool,
    pub auth_required: bool,
    pub token_source: String,
}

impl AuthStatusResponse {
    /// The auth status for a token source: auth is required unless it is disabled.
    pub fn new(source: TokenSource) -> (r: AuthStatusResponse)
        ensures
            r.ok,
            r.auth_required == (source != TokenSource::Disabled),
            r.token_source@ == token_source_name(source),
    {
        AuthStatusResponse {
            ok: true,
            auth_required: source != TokenSource::Disabled,
            token_source: owned(source.as_str()),
        }
    }
}

// ---------------------------------------------------------------------------
// Error bodies
// ---------------------------------------------------------------------------

/// Standard error response body.
#[derive(Debug)]
pub struct ErrorBody {
    pub code: String,
    pub message: String,
}

/// Standard error response envelope.
#[derive(Debug)]
pub struct ErrorResponse {
    pub ok: bool,
    pub error: ErrorBody,
}

/// `e` is a failed response with this code and message.
pub open spec fn is_error(e: ErrorResponse, code: Seq<char>, message: Seq<char>) -> bool {
    !e.ok && e.error.code@ == code && e.error.message@ == message
}

impl ErrorResponse {
    /// Create a new error response.
    pub fn new(code: &str, message: &str) -> (e: ErrorResponse)
        ensures
            is_error(e, code@, message@),
    {
        ErrorResponse { ok: false, error: ErrorBody { code: owned(code), message: owned(message) } }
    }

    /// Bad request (400).
    pub fn bad_request(message: &str) -> (e: ErrorResponse)
        ensures
            is_error(e, "bad_request"@, message@),
    {
        Self::new("bad_request", message)
    }

    /// Not found (404).
    pub fn not_found(message: &str) -> (e: ErrorResponse)
        ensures
            is_error(e, "not_found"@, message@),
    {
        Self::new("not_found", message)
    }

    /// Internal server error (500).
    pub fn internal(message: &str) -> (e: ErrorResponse)
        ensures
            is_error(e, "internal_error"@, message@),
    {
        Self::new("internal_error", message)
    }
}

/// The status line of a JSON response: the known codes by name, anything else as 200.
pub fn json_status_line(status: u16) -> (s: &'static str)
    ensures
        s@ == (if status == 400 {
            "400 Bad Request"@
        } else if status == 404 {
            "404 Not Found"@
        } else if status == 405 {
            "405 Method Not Allowed"@
        } else if status == 500 {
            "500 Internal Server Error"@
        } else {
            "200 OK"@
        }),
{
    if status == 400 {
        "400 Bad Request"
    } else if status == 404 {
        "404 Not Found"
    } else if status == 405 {
        "405 Method Not Allowed"
    } else if status == 500 {
        "500 Internal Server Error"
    } else {
        "200 OK"
    }
}

/// The status line of an error response: the known codes by name, anything else as 500.
pub fn error_status_line(status: u16) -> (s: &'static str)
    ensures
        s@ == (if status == 400 {
            "400 Bad Request"@
        } else if status == 404 {
            "404 Not Found"@
        } else if status == 405 {
            "405 Method Not Allowed"@
        } else {
            "500 Internal Server Error"@
        }),
{
    if status == 400 {
        "400 Bad Request"
    } else if status == 404 {
        "404 Not Found"
    } else if status == 405 {
        "405 Method Not Allowed"
    } else {
        "500 Internal Server Error"
    }
}


// ---------------------------------------------------------------------------
// Request line, path and routing
// ---------------------------------------------------------------------------

/// The method, target and version of a request line: its first three words, the
/// version empty when only two are given; nothing with fewer than two.
pub open spec fn request_line_spec(line: Seq<char>) -> Option<(Seq<char>, Seq<char>, Seq<char>)> {
    let ws = split_ws(line);
    if ws.len() >= 3 {
        Some((ws[0], ws[1], ws[2]))
    } else if ws.len() >= 2 {
        Some((ws[0], ws[1], Seq::empty()))
    } else {
        None
    }
}

/// Parses an HTTP request line.
pub fn parse_request_line(line: &str) -> (r: Option<(String, String, String)>)
    ensures
        match r {
            Some((m, p, v)) => request_line_spec(line@) == Some((m@, p@, v@)),
            None => request_line_spec(line@) is None,
        },
{
    let parts = split_whitespace(line);
    proof {
        assert(words_view(parts@).len() == parts@.len());
    }
    if parts.len() >= 3 {
        proof {
            assert(words_view(parts@)[0] == parts@[0]@);
            assert(words_view(parts@)[1] == parts@[1]@);
            assert(words_view(parts@)[2] == parts@[2]@);
        }
        Some((string_of(&parts[0]), string_of(&parts[1]), string_of(&parts[2])))
    } else if parts.len() >= 2 {
        proof {
            assert(words_view(parts@)[0] == parts@[0]@);
            assert(words_view(parts@)[1] == parts@[1]@);
        }
        Some((string_of(&parts[0]), string_of(&parts[1]), String::new()))
    } else {
        None
    }
}

/// The path and query of a request target: split at the first `?`, the query empty
/// when there is none.
pub open spec fn path_query_spec(full: Seq<char>) -> (Seq<char>, Seq<char>) {
    match find_spec(full, "?"@) {
        Some(i) => (full.subrange(0, i), full.subrange(i + 1, full.len() as int)),
        None => (full, Seq::empty()),
    }
}

/// Splits a request target into its path and query.
pub fn parse_path_and_query(full_path: &str) -> (r: (String, String))
    ensures
        (r.0@, r.1@) == path_query_spec(full_path@),
{
    proof {
        reveal_strlit("?");
    }
    match find_str(full_path, "?") {
        Some(i) => {
            let cs = chars_of(full_path);
            assert(crate::text::occurs_at(full_path@, "?"@, i as int));
            assert(i + 1 <= cs@.len());
            assert(cs@.len() == cs.len());
            (string_of_range(&cs, 0, i), string_of_range(&cs, i + 1, cs.len()))
        },
        None => (owned(full_path), String::new()),
    }
}

/// The header block ends at `i`: the bytes there are `\r\n\r\n`.
pub open spec fn blank_line_at(b: Seq<u8>, i: int) -> bool {
    0 <= i && i + 4 <= b.len() && b[i] == 13u8 && b[i + 1] == 10u8 && b[i + 2] == 13u8 && b[i + 3] == 10u8
}

/// Where a request's body starts: just after the first `\r\n\r\n`, or at the start
/// when there is none.
pub fn body_start(request: &[u8]) -> (r: usize)
    ensures
        (exists|i: int| blank_line_at(request@, i)) ==> blank_line_at(request@, r - 4) && forall|j: int|
            0 <= j < r - 4 ==> !blank_line_at(request@, j),
        !(exists|i: int| blank_line_at(request@, i)) ==> r == 0,
{
    let n = request.len();
    if n < 4 {
        assert forall|i: int| !blank_line_at(request@, i) by {}
        return 0;
    }
    let mut i: usize = 0;
    while i <= n - 4
        invariant
            n == request@.len(),
            n >= 4,
            0 <= i <= n - 3,
            forall|j: int| 0 <= j < i ==> !blank_line_at(request@, j),
        decreases n - i,
    {
        if request[i] == 13u8 && request[i + 1] == 10u8 && request[i + 2] == 13u8 && request[i + 3] == 10u8 {
            assert(blank_line_at(request@, i as int));
            return i + 4;
        }
        i = i + 1;
    }
    assert forall|j: int| !blank_line_at(request@, j) by {}
    0
}

/// The handler a request goes to.
#[derive(Debug, Clone, Copy, PartialEq, Eq, Structural)]
pub enum Route {
    Health,
    Ui,
    Status,
    Capabilities,
    PlansList,
    PlansRead,
    ReceiptsList,
    ReceiptsRead,
    Chat,
    Ask,
    PlanValidate,
    PlansAuthorize,
    Apply,
    NotFound,
}

/// The handler for a method and path; the old unversioned chat, ask and apply
/// paths still work, and everything else is not found.
pub open spec fn route_spec(method: Seq<char>, path: Seq<char>) -> Route {
    if method == "GET"@ {
        if path == "/health"@ {
            Route::Health
        } else if path == "/ui"@ || path == "/ui/"@ || path == "/ui/index.html"@ {
            Route::Ui
        } else if path == "/v1/status"@ {
            Route::Status
        } else if path == "/v1/capabilities"@ {
            Route::Capabilities
        } else if path == "/v1/plans"@ {
            Route::PlansList
        } else if path == "/v1/plans/read"@ {
            Route::PlansRead
        } else if path == "/v1/receipts"@ {
            Route::ReceiptsList
        } else if path == "/v1/receipts/read"@ {
            Route::ReceiptsRead
        } else {
            Route::NotFound
        }
    } else if method == "POST"@ {
        if path == "/v1/chat"@ || path == "/chat"@ {
            Route::Chat
        } else if path == "/v1/ask"@ || path == "/ask"@ {
            Route::Ask
        } else if path == "/v1/plans/validate"@ {
            Route::PlanValidate
        } else if path == "/v1/plans/authorize"@ {
            Route::PlansAuthorize
        } else if path == "/v1/apply"@ || path == "/apply"@ {
            Route::Apply
        } else {
            Route::NotFound
        }
    } else {
        Route::NotFound
    }
}

/// The endpoints the local API serves, each as its method, its path and the handler
/// it reaches; the unversioned chat, ask and apply paths are kept as aliases.
pub open spec fn api_endpoints() -> Seq<(Seq<char>, Seq<char>, Route)> {
    seq![
        ("GET"@, "/health"@, Route::Health),
        ("GET"@, "/ui"@, Route::Ui),
        ("GET"@, "/ui/"@, Route::Ui),
        ("GET"@, "/ui/index.html"@, Route::Ui),
        ("GET"@, "/v1/status"@, Route::Status),
        ("GET"@, "/v1/capabilities"@, Route::Capabilities),
        ("GET"@, "/v1/plans"@, Route::PlansList),
        ("GET"@, "/v1/plans/read"@, Route::PlansRead),
        ("GET"@, "/v1/receipts"@, Route::ReceiptsList),
        ("GET"@, "/v1/receipts/read"@, Route::ReceiptsRead),
        ("POST"@, "/v1/chat"@, Route::Chat),
        ("POST"@, "/v1/ask"@, Route::Ask),
        ("POST"@, "/v1/plans/validate"@, Route::PlanValidate),
        ("POST"@, "/v1/plans/authorize"@, Route::PlansAuthorize),
        ("POST"@, "/v1/apply"@, Route::Apply),
        ("POST"@, "/chat"@, Route::Chat),
        ("POST"@, "/ask"@, Route::Ask),
        ("POST"@, "/apply"@, Route::Apply),
    ]
}

/// Each endpoint the API serves reaches its handler, and a request for any other
/// method and path is not found.
pub proof fn lemma_routes_are_the_endpoints(method: Seq<char>, path: Seq<char>)
    ensures
        forall|i: int|
            0 <= i < api_endpoints().len() ==> route_spec(
                (#[trigger] api_endpoints()[i]).0,
                api_endpoints()[i].1,
            ) == api_endpoints()[i].2,
        route_spec(method, path) != Route::NotFound ==> exists|i: int|
            0 <= i < api_endpoints().len() && (#[trigger] api_endpoints()[i]).0 == method && api_endpoints()[i].1
                == path && api_endpoints()[i].2 == route_spec(method, path),
{
    reveal_strlit("GET");
    reveal_strlit("POST");
    reveal_strlit("/health");
    reveal_strlit("/ui");
    reveal_strlit("/ui/");
    reveal_strlit("/ui/index.html");
    reveal_strlit("/v1/status");
    reveal_strlit("/v1/capabilities");
    reveal_strlit("/v1/plans");
    reveal_strlit("/v1/plans/read");
    reveal_strlit("/v1/receipts");
    reveal_strlit("/v1/receipts/read");
    reveal_strlit("/v1/chat");
    reveal_strlit("/v1/ask");
    reveal_strlit("/v1/plans/validate");
    reveal_strlit("/v1/plans/authorize");
    reveal_strlit("/v1/apply");
    reveal_strlit("/chat");
    reveal_strlit("/ask");
    reveal_strlit("/apply");
    assert("GET"@.len() == 3);
    assert("POST"@.len() == 4);
    assert("/health"@.len() == 7);
    assert("/ui"@.len() == 3);
    assert("/ui/"@.len() == 4);
    assert("/ui/index.html"@.len() == 14);
    assert("/v1/status"@.len() == 10);
    assert("/v1/capabilities"@.len() == 16);
    assert("/v1/plans"@.len() == 9);
    assert("/v1/plans/read"@.len() == 14);
    assert("/v1/receipts"@.len() == 12);
    assert("/v1/receipts/read"@.len() == 17);
    assert("/v1/chat"@.len() == 8);
    assert("/chat"@.len() == 5);
    assert("/v1/ask"@.len() == 7);
    assert("/ask"@.len() == 4);
    assert("/v1/plans/validate"@.len() == 18);
    assert("/v1/plans/authorize"@.len() == 19);
    assert("/v1/apply"@.len() == 9);
    assert("/apply"@.len() == 6);
    assert("/ui/index.html"@[1] != "/v1/plans/read"@[1]);
    let e = api_endpoints();
    assert forall|i: int| 0 <= i < e.len() implies route_spec((#[trigger] e[i]).0, e[i].1) == e[i].2 by {
        if i == 0 { assert(route_spec("GET"@, "/health"@) == Route::Health); }
        else if i == 1 { assert(route_spec("GET"@, "/ui"@) == Route::Ui); }
        else if i == 2 { assert(route_spec("GET"@, "/ui/"@) == Route::Ui); }
        else if i == 3 { assert(route_spec("GET"@, "/ui/index.html"@) == Route::Ui); }
        else if i == 4 { assert(route_spec("GET"@, "/v1/status"@) == Route::Status); }
        else if i == 5 { assert(route_spec("GET"@, "/v1/capabilities"@) == Route::Capabilities); }
        else if i == 6 { assert(route_spec("GET"@, "/v1/plans"@) == Route::PlansList); }
        else if i == 7 { assert(route_spec("GET"@, "/v1/plans/read"@) == Route::PlansRead); }
        else if i == 8 { assert(route_spec("GET"@, "/v1/receipts"@) == Route::ReceiptsList); }
        else if i == 9 { assert(route_spec("GET"@, "/v1/receipts/read"@) == Route::ReceiptsRead); }
        else if i == 10 { assert(route_spec("POST"@, "/v1/chat"@) == Route::Chat); }
        else if i == 11 { assert(route_spec("POST"@, "/v1/ask"@) == Route::Ask); }
        else if i == 12 { assert(route_spec("POST"@, "/v1/plans/validate"@) == Route::PlanValidate); }
        else if i == 13 { assert(route_spec("POST"@, "/v1/plans/authorize"@) == Route::PlansAuthorize); }
        else if i == 14 { assert(route_spec("POST"@, "/v1/apply"@) == Route::Apply); }
        else if i == 15 { assert(route_spec("POST"@, "/chat"@) == Route::Chat); }
        else if i == 16 { assert(route_spec("POST"@, "/ask"@) == Route::Ask); }
        else { assert(route_spec("POST"@, "/apply"@) == Route::Apply); }
    }
    if route_spec(method, path) != Route::NotFound {
        if method == "GET"@ {
            if path == "/health"@ { assert(e[0].0 == method && e[0].1 == path); }
            else if path == "/ui"@ { assert(e[1].0 == method && e[1].1 == path); }
            else if path == "/ui/"@ { assert(e[2].0 == method && e[2].1 == path); }
            else if path == "/ui/index.html"@ { assert(e[3].0 == method && e[3].1 == path); }
            else if path == "/v1/status"@ { assert(e[4].0 == method && e[4].1 == path); }
            else if path == "/v1/capabilities"@ { assert(e[5].0 == method && e[5].1 == path); }
            else if path == "/v1/plans"@ { assert(e[6].0 == method && e[6].1 == path); }
            else if path == "/v1/plans/read"@ { assert(e[7].0 == method && e[7].1 == path); }
            else if path == "/v1/receipts"@ { assert(e[8].0 == method && e[8].1 == path); }
            else { assert(e[9].0 == method && e[9].1 == path); }
        } else {
            if path == "/v1/chat"@ { assert(e[10].0 == method && e[10].1 == path); }
            else if path == "/chat"@ { assert(e[15].0 == method && e[15].1 == path); }
            else if path == "/v1/ask"@ { assert(e[11].0 == method && e[11].1 == path); }
            else if path == "/ask"@ { assert(e[16].0 == method && e[16].1 == path); }
            else if path == "/v1/plans/validate"@ { assert(e[12].0 == method && e[12].1 == path); }
            else if path == "/v1/plans/authorize"@ { assert(e[13].0 == method && e[13].1 == path); }
            else if path == "/v1/apply"@ { assert(e[14].0 == method && e[14].1 == path); }
            else { assert(e[17].0 == method && e[17].1 == path); }
        }
    }
}

/// The handler for a request.
pub fn route_for(method: &str, path: &str) -> (r: Route)
    ensures
        r == route_spec(method@, path@),
{
    if str_eq(method, "GET") {
        if str_eq(path, "/health") {
            Route::Health
        } else if str_eq(path, "/ui") || str_eq(path, "/ui/") || str_eq(path, "/ui/index.html") {
            Route::Ui
        } else if str_eq(path, "/v1/status") {
            Route::Status
        } else if str_eq(path, "/v1/capabilities") {
            Route::Capabilities
        } else if str_eq(path, "/v1/plans") {
            Route::PlansList
        } else if str_eq(path, "/v1/plans/read") {
            Route::PlansRead
        } else if str_eq(path, "/v1/receipts") {
            Route::ReceiptsList
        } else if str_eq(path, "/v1/receipts/read") {
            Route::ReceiptsRead
        } else {
            Route::NotFound
        }
    } else if str_eq(method, "POST") {
        if str_eq(path, "/v1/chat") || str_eq(path, "/chat") {
            Route::Chat
        } else if str_eq(path, "/v1/ask") || str_eq(path, "/ask") {
            Route::Ask
        } else if str_eq(path, "/v1/plans/validate") {
            Route::PlanValidate
        } else if str_eq(path, "/v1/plans/authorize") {
            Route::PlansAuthorize
        } else if str_eq(path, "/v1/apply") || str_eq(path, "/apply") {
            Route::Apply
        } else {
            Route::NotFound
        }
    } else {
        Route::NotFound
    }
}

// ---------------------------------------------------------------------------
// Handler checks
// ---------------------------------------------------------------------------

/// The refusal of a request whose `field` is blank: `<field> is required`.
pub fn required_field_error(value: &str, field: &str) -> (r: Option<ErrorResponse>)
    ensures
        (r is Some) == (trim_spec(value@).len() == 0),
        r matches Some(e) ==> is_error(e, "bad_request"@, field@ + " is required"@),
{
    let t = trim(value);
    if t.as_str().is_empty() {
        let m = concat(field, " is required");
        Some(ErrorResponse::bad_request(m.as_str()))
    } else {
        None
    }
}

/// The model router URL a request names, or the local default.
pub fn model_router_url_or_default(url: Option<&str>) -> (r: String)
    ensures
        r@ == match url {
            Some(u) => u@,
            None => "http://127.0.0.1:8088"@,
        },
{
    match url {
        Some(u) => owned(u),
        None => owned("http://127.0.0.1:8088"),
    }
}

/// A text a request names, or a default.
pub fn text_or_default(value: Option<&str>, default: &str) -> (r: String)
    ensures
        r@ == match value {
            Some(v) => v@,
            None => default@,
        },
{
    match value {
        Some(v) => owned(v),
        None => owned(default),
    }
}

/// The refusal of a model router URL that is not loopback-only:
/// `<label> must be loopback only: <url>`.
pub fn loopback_error(url: &str, label: &str) -> (r: Option<ErrorResponse>)
    ensures
        (r is Some) == !is_loopback_spec(url@),
        r matches Some(e) ==> is_error(e, "bad_request"@, label@ + " must be loopback only: "@ + url@),
{
    if is_loopback_url(url) {
        None
    } else {
        let a = concat(label, " must be loopback only: ");
        let m = concat(a.as_str(), url);
        Some(ErrorResponse::bad_request(m.as_str()))
    }
}

/// The response to a failed read: not found (404) when the message says so, a bad
/// request (400) for a path outside the allowed directories, else an internal error.
pub fn read_error_response(msg: &str) -> (r: (u16, ErrorResponse))
    ensures
        crate::text::contains_spec(msg@, "not found"@) ==> r.0 == 404 && is_error(r.1, "not_found"@, msg@),
        !crate::text::contains_spec(msg@, "not found"@) && crate::text::contains_spec(msg@, "outside allowed"@)
            ==> r.0 == 400 && is_error(r.1, "bad_request"@, msg@),
        !crate::text::contains_spec(msg@, "not found"@) && !crate::text::contains_spec(msg@, "outside allowed"@)
            ==> r.0 == 500 && is_error(r.1, "internal_error"@, msg@),
{
    if crate::text::contains_str(msg, "not found") {
        (404, ErrorResponse::not_found(msg))
    } else if crate::text::contains_str(msg, "outside allowed") {
        (400, ErrorResponse::bad_request(msg))
    } else {
        (500, ErrorResponse::internal(msg))
    }
}

/// How many plans to list: the requested number (20 by default), at most 100.
pub fn plans_limit(limit: Option<usize>) -> (r: usize)
    ensures
        r == (match limit {
            Some(l) => if l < 100 { l } else { 100 },
            None => 20,
        }),
{
    match limit {
        Some(l) => if l < 100 { l } else { 100 },
        None => 20,
    }
}

/// How many receipts to list: the requested number (50 by default), at most 200.
pub fn receipts_limit(limit: Option<usize>) -> (r: usize)
    ensures
        r == (match limit {
            Some(l) => if l < 200 { l } else { 200 },
            None => 50,
        }),
{
    match limit {
        Some(l) => if l < 200 { l } else { 200 },
        None => 50,
    }
}

/// The kind of receipts asked for; `all` asks for every kind.
pub fn kind_filter(kind: Option<&str>) -> (r: Option<String>)
    ensures
        match r {
            Some(k) => kind matches Some(q) && q@ == k@ && q@ != "all"@,
            None => kind is None || (kind matches Some(q) && q@ == "all"@),
        },
{
    match kind {
        Some(k) => if str_eq(k, "all") {
            None
        } else {
            Some(owned(k))
        },
        None => None,
    }
}


// ---------------------------------------------------------------------------
// Static files, status and plan validation
// ---------------------------------------------------------------------------

/// Characters a static file name may keep: alphanumerics, `-`, `.`, `/` and `_`.
pub open spec fn static_name_char(c: char) -> bool {
    unicode_alphanumeric(c) || c == '-' || c == '.' || c == '/' || c == '_'
}

/// The characters of `s` that a static file name may keep, in order.
pub open spec fn keep_static_chars(s: Seq<char>) -> Seq<char>
    decreases s.len(),
{
    if s.len() == 0 {
        s
    } else if static_name_char(s.last()) {
        keep_static_chars(s.drop_last()).push(s.last())
    } else {
        keep_static_chars(s.drop_last())
    }
}

/// The static file a request names: only the allowed characters are kept; a name
/// that then holds `..` is refused, and leading slashes are dropped.
pub open spec fn static_name_spec(filename: Seq<char>) -> Option<Seq<char>> {
    let kept = keep_static_chars(filename);
    if contains_spec(kept, ".."@) {
        None
    } else {
        Some(trim_start_all(kept, "/"@))
    }
}

/// Sanitizes the name of a requested static file.
pub fn sanitize_static_name(filename: &str) -> (r: Option<String>)
    ensures
        match r {
            Some(n) => static_name_spec(filename@) == Some(n@),
            None => static_name_spec(filename@) is None,
        },
{
    let cs = chars_of(filename);
    let mut kept = String::new();
    let mut i: usize = 0;
    proof {
        assert(cs@.take(0) =~= Seq::<char>::empty());
    }
    while i < cs.len()
        invariant
            0 <= i <= cs@.len(),
            cs@ == filename@,
            kept@ == keep_static_chars(cs@.take(i as int)),
        decreases cs@.len() - i,
    {
        let c = cs[i];
        proof {
            assert(cs@.take(i + 1).drop_last() =~= cs@.take(i as int));
            assert(cs@.take(i + 1).last() == c);
        }
        if is_alphanumeric(c) || c == '-' || c == '.' || c == '/' || c == '_' {
            push_char(&mut kept, c);
        }
        i = i + 1;
    }
    proof {
        assert(cs@.take(cs@.len() as int) =~= cs@);
    }
    if contains_str(kept.as_str(), "..") {
        None
    } else {
        Some(trim_start_matches(kept.as_str(), "/"))
    }
}

/// API server info.
#[derive(Debug)]
pub struct ApiInfo {
    pub url: String,
    pub loopback_only: bool,
}

/// Model router info.
#[derive(Debug)]
pub struct ModelRouterInfo {
    pub url: String,
    pub reachable: bool,
}

/// All capabilities.
#[derive(Debug)]
pub struct CapabilitiesInfo {
    pub chat: bool,
    pub ask: bool,
    pub plan_validate: bool,
    pub plan_authorize: bool,
    pub apply: bool,
    pub plans: bool,
    pub receipts: bool,
    pub runtime_status: bool,
}

/// Status response.
#[derive(Debug)]
pub struct StatusResponse {
    pub ok: bool,
    pub service: String,
    pub version: String,
    pub api: ApiInfo,
    pub model_router: ModelRouterInfo,
    pub capabilities: CapabilitiesInfo,
}

impl StatusResponse {
    /// The status of the API at version `version`: it serves on the loopback address
    /// with every capability, and reports the model router and whether it answered.
    pub fn new(model_router_url: &str, reachable: bool, version: &str) -> (r: StatusResponse)
        ensures
            r.ok,
            r.service@ == "osai-api"@,
            r.version@ == version@,
            r.api.url@ == "http://127.0.0.1:8090"@,
            r.api.loopback_only,
            r.model_router.url@ == model_router_url@,
            r.model_router.reachable == reachable,
            r.capabilities.chat && r.capabilities.ask && r.capabilities.plan_validate && r.capabilities.plan_authorize,
            r.capabilities.apply && r.capabilities.plans && r.capabilities.receipts && r.capabilities.runtime_status,
    {
        StatusResponse {
            ok: true,
            service: owned("osai-api"),
            version: owned(version),
            api: ApiInfo { url: owned("http://127.0.0.1:8090"), loopback_only: true },
            model_router: ModelRouterInfo { url: owned(model_router_url), reachable },
            capabilities: CapabilitiesInfo {
                chat: true,
                ask: true,
                plan_validate: true,
                plan_authorize: true,
                apply: true,
                plans: true,
                receipts: true,
                runtime_status: true,
            },
        }
    }
}

/// What loading a plan file gave.
#[derive(Debug)]
pub enum PlanLoad {
    /// No file is there.
    Missing,
    /// The file could not be read; why.
    ReadError(String),
    /// The file held no plan in YAML or JSON; the parse error's message.
    ParseError(String),
    /// The file held a plan.
    Parsed(OsaiPlan),
}

/// Plan validate API response.
#[derive(Debug)]
pub struct PlanValidateResponse {
    pub ok: bool,
    pub valid: bool,
    pub error: Option<String>,
}

/// The answer to validating the plan at `plan_path`: a missing or unreadable file is
/// a failed request; an unparsable or invalid plan a completed one that found the
/// plan invalid, with why; a valid plan is valid.
pub open spec fn validate_response_spec(
    r: PlanValidateResponse,
    plan_path: Seq<char>,
    load: PlanLoad,
) -> bool {
    match load {
        PlanLoad::Missing => !r.ok && !r.valid && (r.error matches Some(e) && e@ == "plan file not found: "@ + plan_path),
        PlanLoad::ReadError(m) => !r.ok && !r.valid && (r.error matches Some(e) && e@ == "failed to read plan file: "@ + m@),
        PlanLoad::ParseError(m) => r.ok && !r.valid && (r.error matches Some(e) && e@ == "parse error: "@ + m@),
        PlanLoad::Parsed(p) => match plan_validation(p) {
            Ok(()) => r.ok && r.valid && r.error is None,
            Err(v) => r.ok && !r.valid && (r.error matches Some(e) && e@ == "validation error: "@
                + validation_error_message(v)),
        },
    }
}

/// Validates the plan loaded from `plan_path`.
pub fn plan_validate_response(plan_path: &str, load: &PlanLoad) -> (r: PlanValidateResponse)
    ensures
        validate_response_spec(r, plan_path@, *load),
{
    match load {
        PlanLoad::Missing => PlanValidateResponse {
            ok: false,
            valid: false,
            error: Some(concat("plan file not found: ", plan_path)),
        },
        PlanLoad::ReadError(m) => PlanValidateResponse {
            ok: false,
            valid: false,
            error: Some(concat("failed to read plan file: ", m.as_str())),
        },
        PlanLoad::ParseError(m) => PlanValidateResponse {
            ok: true,
            valid: false,
            error: Some(concat("parse error: ", m.as_str())),
        },
        PlanLoad::Parsed(p) => match p.validate() {
            Ok(()) => PlanValidateResponse { ok: true, valid: true, error: None },
            Err(v) => {
                let m = v.message();
                PlanValidateResponse { ok: true, valid: false, error: Some(concat("validation error: ", m.as_str())) }
            },
        },
    }
}

} // verus!
