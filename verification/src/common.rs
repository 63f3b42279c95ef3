//! Values shared by the handlers: content types, handler errors, the response
//! and request models, file opening modes and the path helpers.
use vstd::prelude::*;
use vstd::string::StrSliceExecFns;
use vstd::string::StringExecFns;

verus! {

broadcast use vstd::string::group_string_axioms;

/// `std::io::Error` is carried through the library untouched.
#[verifier::external_type_specification]
#[verifier::external_body]
pub struct ExIoError(std::io::Error);

/// The `Content-Type` header values of the kinds of page the server can send.
pub struct ContentType {
    pub html: &'static str,
    pub css: &'static str,
    pub js: &'static str,
}

/// The content types the server uses.
pub fn content_types() -> (res: ContentType)
    ensures
        res.html@ == "text/html; charset=UTF-8"@,
        res.css@ == "text/css; charset=UTF-8"@,
        res.js@ == "text/javascript; charset=UTF-8"@,
{
    ContentType {
        html: "text/html; charset=UTF-8",
        css: "text/css; charset=UTF-8",
        js: "text/javascript; charset=UTF-8",
    }
}

/// A failure of a handler: the HTTP status to answer with and a message.
pub struct HandlerError {
    pub code: u16,
    pub message: String,
}

/// A handler failure as mathematical values.
pub struct HandlerErrorView {
    pub code: u16,
    pub message: Seq<char>,
}

impl View for HandlerError {
    type V = HandlerErrorView;

    open spec fn view(&self) -> HandlerErrorView {
        HandlerErrorView { code: self.code, message: self.message@ }
    }
}

impl HandlerError {
    /// A handler failure with the given status and message.
    pub fn new(code: u16, message: String) -> (res: HandlerError)
        ensures
            res.code == code,
            res.message@ == message@,
    {
        HandlerError { code: code, message: message }
    }
}

/// An HTTP header: its field name and its value.
pub struct Header {
    pub field: String,
    pub value: String,
}

impl View for Header {
    type V = (Seq<char>, Seq<char>);

    open spec fn view(&self) -> (Seq<char>, Seq<char>) {
        (self.field@, self.value@)
    }
}

/// The views of a list of headers.
pub open spec fn headers_view(headers: Seq<Header>) -> Seq<(Seq<char>, Seq<char>)> {
    headers.map_values(|h: Header| h@)
}

/// A response whose body is held in memory: status, headers and body text.
/// It is sent with its length declared as the byte length of the body.
pub struct CursorResponse {
    pub status: u16,
    pub headers: Vec<Header>,
    pub data: String,
}

/// A response whose body is the content of the file at `path`.
pub struct FileResponse {
    pub path: String,
}

/// A response, as a handler hands it back.
pub enum ResponseType {
    File(FileResponse),
    Cursor(CursorResponse),
}

/// A response as mathematical values.
pub enum ResponseModel {
    File { path: Seq<char> },
    Cursor { status: u16, headers: Seq<(Seq<char>, Seq<char>)>, data: Seq<char> },
}

impl View for ResponseType {
    type V = ResponseModel;

    open spec fn view(&self) -> ResponseModel {
        match self {
            ResponseType::File(f) => ResponseModel::File { path: f.path@ },
            ResponseType::Cursor(c) => ResponseModel::Cursor {
                status: c.status,
                headers: headers_view(c.headers@),
                data: c.data@,
            },
        }
    }
}

/// The header that plain text responses carry.
pub open spec fn plain_text_header() -> (Seq<char>, Seq<char>) {
    ("Content-Type"@, "text/plain; charset=UTF-8"@)
}

/// A plain text response with status 200 and the given body.
pub open spec fn string_response(s: Seq<char>) -> ResponseModel {
    ResponseModel::Cursor { status: 200, headers: seq![plain_text_header()], data: s }
}

/// A response with the given status, headers and body.
pub open spec fn full_response(
    code: u16,
    headers: Seq<(Seq<char>, Seq<char>)>,
    s: Seq<char>,
) -> ResponseModel {
    ResponseModel::Cursor { status: code, headers, data: s }
}

/// The result of a handler as mathematical values.
pub open spec fn result_view(r: Result<ResponseType, HandlerError>) -> Result<ResponseModel, HandlerErrorView> {
    match r {
        Ok(resp) => Ok(resp@),
        Err(e) => Err(e@),
    }
}

impl ResponseType {
    /// The response sent where nothing more specific is known.
    pub fn default() -> (res: Self)
        ensures
            res@ == string_response("Default Response"@),
    {
        ResponseType::from_string(String::from_str("Default Response"))
    }

    /// The response to a request that the server does not serve yet.
    pub fn not_implemented() -> (res: Self)
        ensures
            res@ == string_response("Not Implemented"@),
    {
        ResponseType::from_string(String::from_str("Not Implemented"))
    }

    /// Wraps a file response.
    pub fn from_file(r: FileResponse) -> (res: Self)
        ensures
            res == ResponseType::File(r),
    {
        ResponseType::File(r)
    }

    /// Wraps an in-memory response.
    pub fn from_cursor(r: CursorResponse) -> (res: Self)
        ensures
            res == ResponseType::Cursor(r),
    {
        ResponseType::Cursor(r)
    }

    /// A plain text response: status 200, one header
    /// `Content-Type: text/plain; charset=UTF-8`, and `s` as body.
    pub fn from_string(s: String) -> (res: Self)
        ensures
            res@ == string_response(s@),
    {
        let mut headers: Vec<Header> = Vec::new();
        headers.push(
            Header {
                field: String::from_str("Content-Type"),
                value: String::from_str("text/plain; charset=UTF-8"),
            },
        );
        let res = ResponseType::Cursor(CursorResponse { status: 200, headers, data: s });
        assert(headers_view(headers@) =~= seq![plain_text_header()]);
        res
    }

    /// A response with the given status, the given headers (none if `None`),
    /// and `string` as body.
    pub fn from_string_full(code: u16, headers: Option<Vec<Header>>, string: String) -> (res: Self)
        ensures
            res@ == full_response(
                code,
                match headers {
                    Some(h) => headers_view(h@),
                    None => Seq::empty(),
                },
                string@,
            ),
    {
        let headers = match headers {
            Some(h) => h,
            None => {
                let none: Vec<Header> = Vec::new();
                assert(headers_view(none@) =~= Seq::empty());
                none
            },
        };
        ResponseType::Cursor(CursorResponse { status: code, headers, data: string })
    }
}

/// The method of an HTTP request.
pub enum Method {
    Get,
    Head,
    Post,
    Put,
    Delete,
    Connect,
    Options,
    Trace,
    Patch,
    NonStandard(String),
}

/// What a handler reads of an HTTP request: its method and its URL.
pub struct Request {
    pub method: Method,
    pub url: String,
}

/// The ways a file can be opened.
pub enum OpenMethod {
    /// Open an existing file for reading.
    Read,
    /// Create the file (or truncate it) for writing.
    Create,
}

/// A request to open a file in a way that is not supported.
pub struct UnsupportedOpenMethod;

impl UnsupportedOpenMethod {
    /// The message that describes the failure.
    pub fn message(&self) -> (res: &'static str)
        ensures
            res@ == "File open method not supported"@,
    {
        "File open method not supported"
    }
}

/// How a file is opened for the method letter `method`: `'r'` reads, `'w'`
/// creates, anything else is not supported.
pub fn open_method(method: char) -> (res: Result<OpenMethod, UnsupportedOpenMethod>)
    ensures
        method == 'r' ==> res matches Ok(OpenMethod::Read),
        method == 'w' ==> res matches Ok(OpenMethod::Create),
        method != 'r' && method != 'w' ==> res is Err,
{
    match method {
        'r' => Ok(OpenMethod::Read),
        'w' => Ok(OpenMethod::Create),
        _ => Err(UnsupportedOpenMethod),
    }
}

/// What `std::path::Path::parent` gives for a path: the path without its
/// final component, or `None` when it ends in a root or prefix or is empty.
pub uninterp spec fn path_parent(path: Seq<char>) -> Option<Seq<char>>;

/// `base` extended by `tail` as Unix paths are joined, as
/// `std::path::PathBuf::push` does on Unix: an absolute `tail` (one starting
/// with `/`) replaces the path; otherwise `tail` is appended, after a `/`
/// when `base` is not empty and does not already end in one. The server
/// runs on Unix.
pub open spec fn path_pushed(base: Seq<char>, tail: Seq<char>) -> Seq<char> {
    if tail.len() > 0 && tail[0] == '/' {
        tail
    } else if base.len() > 0 && base.last() != '/' {
        base + seq!['/'] + tail
    } else {
        base + tail
    }
}

/// Calls `std::path::PathBuf::pop` on `path`. Claimed: it reports whether the
/// path has a parent, and leaves the parent if so, the path unchanged if not.
#[verifier::external_body]
fn pop_path(path: &String) -> (res: (bool, String))
    ensures
        res.0 == path_parent(path@) is Some,
        res.0 ==> res.1@ == path_parent(path@)->0,
        !res.0 ==> res.1@ == path@,
{
    let mut p = std::path::PathBuf::from(path);
    let popped = p.pop();
    (popped, p.to_string_lossy().into_owned())
}

/// How Unix paths join: an absolute tail replaces the path; a relative one is
/// appended, with exactly one `/` between a non-empty base and the tail.
pub proof fn law_unix_path_joining(base: Seq<char>, tail: Seq<char>)
    ensures
        tail.len() > 0 && tail[0] == '/' ==> path_pushed(base, tail) == tail,
        !(tail.len() > 0 && tail[0] == '/') && base.len() > 0 && base.last() != '/' ==> path_pushed(
            base,
            tail,
        ) == base + seq!['/'] + tail,
        !(tail.len() > 0 && tail[0] == '/') && (base.len() == 0 || base.last() == '/')
            ==> path_pushed(base, tail) == base + tail,
{
}

/// `base` extended by `tail`, joined as Unix paths are.
pub fn push_path(base: &String, tail: &str) -> (res: String)
    ensures
        res@ == path_pushed(base@, tail@),
{
    let tail_len = tail.unicode_len();
    if tail_len > 0 && tail.get_char(0) == '/' {
        return String::from_str(tail);
    }
    let base_str = base.as_str();
    let base_len = base_str.unicode_len();
    let mut res = base.clone();
    if base_len > 0 && base_str.get_char(base_len - 1) != '/' {
        res.append("/");
        proof {
            reveal_strlit("/");
        }
        assert(res@ == base@ + seq!['/']);
    }
    res.append(tail);
    res
}

/// `path` truncated to its parent, or unchanged when it has none.
pub open spec fn pop_once(path: Seq<char>) -> Seq<char> {
    match path_parent(path) {
        Some(p) => p,
        None => path,
    }
}

/// The project directory of an executable: its path with three components
/// taken off (the file name, then the build profile and target directories).
pub open spec fn project_dir_of(exe: Seq<char>) -> Seq<char> {
    pop_once(pop_once(pop_once(exe)))
}

/// The project directory of the executable at `exe`.
pub fn project_dir(exe: &String) -> (res: String)
    ensures
        res@ == project_dir_of(exe@),
{
    let mut pd = exe.clone();
    let mut i: usize = 0;
    while i < 3
        invariant
            i <= 3,
            pd@ == (if i == 0 {
                exe@
            } else if i == 1 {
                pop_once(exe@)
            } else if i == 2 {
                pop_once(pop_once(exe@))
            } else {
                project_dir_of(exe@)
            }),
        decreases 3 - i,
    {
        let (_, next) = pop_path(&pd);
        pd = next;
        i = i + 1;
    }
    pd
}

} // verus!
