//! The handler of the listing route: it answers with the storage manifest,
//! the list of stored videos, as JSON.
use vstd::prelude::*;
use vstd::string::StringExecFns;
use crate::common::{
    HandlerError, HandlerErrorView, Header, Method, Request, ResponseModel, ResponseType,
    full_response, headers_view, path_pushed, push_path, result_view,
};
use crate::config::Config;
use crate::text::strings_view;

verus! {

/// The storage manifest: how many videos are stored, and their names.
pub struct Manifest {
    pub video_count: usize,
    pub videos: Vec<String>,
}

/// A manifest as mathematical values.
pub struct ManifestView {
    pub video_count: usize,
    pub videos: Seq<Seq<char>>,
}

impl View for Manifest {
    type V = ManifestView;

    open spec fn view(&self) -> ManifestView {
        ManifestView { video_count: self.video_count, videos: strings_view(self.videos@) }
    }
}

/// What `serde_json` writes, in its compact form, for a JSON object of two
/// members: `count_key` holding the number `count`, and `list_key` holding
/// the array of the strings in `list`.
pub uninterp spec fn json_object_text(
    count_key: Seq<char>,
    count: usize,
    list_key: Seq<char>,
    list: Seq<Seq<char>>,
) -> Seq<char>;

/// Builds a `serde_json::Value` object of the two members and writes it with
/// its `Display`. Claimed: the text is `json_object_text` of the arguments.
#[verifier::external_body]
fn json_object(count_key: &str, count: usize, list_key: &str, list: &Vec<String>) -> (res: String)
    ensures
        res@ == json_object_text(count_key@, count, list_key@, strings_view(list@)),
{
    let mut object = serde_json::Map::new();
    object.insert(count_key.to_string(), serde_json::Value::from(count));
    object.insert(list_key.to_string(), serde_json::Value::from(list.clone()));
    serde_json::Value::Object(object).to_string()
}

/// The manifest as JSON: an object with the members `video_count` and
/// `videos`.
pub open spec fn manifest_json(m: ManifestView) -> Seq<char> {
    json_object_text("video_count"@, m.video_count, "videos"@, m.videos)
}

/// The manifest as compact JSON.
pub fn manifest_to_json(m: &Manifest) -> (res: String)
    ensures
        res@ == manifest_json(m@),
{
    json_object("video_count", m.video_count, "videos", &m.videos)
}

/// Where the manifest of a configuration's storage is kept: the file
/// `manifest.toml` in the storage directory.
pub open spec fn manifest_path(config_storage_dir: Seq<char>) -> Seq<char> {
    path_pushed(config_storage_dir, "manifest.toml"@)
}

/// What the listing handler does with a request.
pub enum ListStep {
    /// Answer right away.
    Respond(Result<ResponseType, HandlerError>),
    /// Read and parse the manifest at this path, then call `get_with_manifest`.
    ReadManifest(String),
}

/// How reading the manifest went, with the error texts of the failures.
pub enum ManifestOutcome {
    /// The file could not be opened.
    OpenFailed(String),
    /// The file could not be read or its TOML could not be parsed.
    ParseFailed(String),
    /// The manifest it holds.
    Loaded(Manifest),
}

/// Serves the listing route: a `GET` leads to reading the manifest in the
/// storage directory, any other method is refused with status 404.
pub fn handle(request: &Request, path: Vec<String>, config: &Config) -> (res: ListStep)
    ensures
        request.method is Get ==> (res matches ListStep::ReadManifest(p) && p@ == manifest_path(
            config@.storage_dir,
        )),
        !(request.method is Get) ==> (res matches ListStep::Respond(r) && result_view(r) == Err::<
            ResponseModel,
            _,
        >(HandlerErrorView { code: 404, message: "Path not supported"@ })),
{
    match request.method {
        Method::Get => ListStep::ReadManifest(get(request, path, config)),
        _ => ListStep::Respond(
            Err(HandlerError::new(404u16, String::from_str("Path not supported"))),
        ),
    }
}

/// The path of the manifest that a `GET` reads.
fn get(request: &Request, path: Vec<String>, config: &Config) -> (res: String)
    ensures
        res@ == manifest_path(config@.storage_dir),
{
    push_path(config.get_stroage_dir(), "manifest.toml")
}

/// The answer to a `GET` once the manifest was read.
pub open spec fn manifest_result(outcome: ManifestOutcome) -> Result<ResponseModel, HandlerErrorView> {
    match outcome {
        ManifestOutcome::OpenFailed(e) => Err(
            HandlerErrorView {
                code: 500,
                message: "Internal error while opening manifest file: "@ + e@,
            },
        ),
        ManifestOutcome::ParseFailed(e) => Err(
            HandlerErrorView {
                code: 500,
                message: "Internal error while parsing manifest file: "@ + e@,
            },
        ),
        ManifestOutcome::Loaded(m) => Ok(
            full_response(200, seq![("Content-Type"@, "application/json"@)], manifest_json(m@)),
        ),
    }
}

/// A manifest that could not be opened or parsed is answered with status 500
/// and a message that ends with the failure's text; a loaded one with status
/// 200 and the manifest's JSON as body.
pub proof fn law_manifest_answers(outcome: ManifestOutcome)
    ensures
        outcome matches ManifestOutcome::OpenFailed(e) ==> (manifest_result(outcome) matches Err(
            err,
        ) && err.code == 500 && err.message.len() >= e@.len() && err.message.subrange(
            err.message.len() - e@.len(),
            err.message.len() as int,
        ) == e@),
        outcome matches ManifestOutcome::ParseFailed(e) ==> (manifest_result(outcome) matches Err(
            err,
        ) && err.code == 500 && err.message.len() >= e@.len() && err.message.subrange(
            err.message.len() - e@.len(),
            err.message.len() as int,
        ) == e@),
        outcome matches ManifestOutcome::Loaded(m) ==> (manifest_result(outcome) matches Ok(
            ResponseModel::Cursor { status, headers, data },
        ) && status == 200 && data == json_object_text(
            "video_count"@,
            m.video_count,
            "videos"@,
            strings_view(m.videos@),
        )),
{
    match outcome {
        ManifestOutcome::OpenFailed(e) => {
            let msg = "Internal error while opening manifest file: "@ + e@;
            assert(msg.subrange(msg.len() - e@.len(), msg.len() as int) =~= e@);
        },
        ManifestOutcome::ParseFailed(e) => {
            let msg = "Internal error while parsing manifest file: "@ + e@;
            assert(msg.subrange(msg.len() - e@.len(), msg.len() as int) =~= e@);
        },
        ManifestOutcome::Loaded(_) => {},
    }
}

/// Answers a `GET` once the manifest was read: status 500 with the failure
/// when reading failed, else status 200 with the manifest as JSON.
pub fn get_with_manifest(outcome: ManifestOutcome) -> (res: Result<ResponseType, HandlerError>)
    ensures
        result_view(res) == manifest_result(outcome),
{
    match outcome {
        ManifestOutcome::OpenFailed(err) => {
            let mut message = String::from_str("Internal error while opening manifest file: ");
            message.append(err.as_str());
            Err(HandlerError::new(500u16, message))
        },
        ManifestOutcome::ParseFailed(err) => {
            let mut message = String::from_str("Internal error while parsing manifest file: ");
            message.append(err.as_str());
            Err(HandlerError::new(500u16, message))
        },
        ManifestOutcome::Loaded(manifest) => {
            let mut headers: Vec<Header> = Vec::new();
            headers.push(
                Header {
                    field: String::from_str("Content-Type"),
                    value: String::from_str("application/json"),
                },
            );
            assert(headers_view(headers@) =~= seq![("Content-Type"@, "application/json"@)]);
            let body = manifest_to_json(&manifest);
            Ok(ResponseType::from_string_full(200u16, Some(headers), body))
        },
    }
}

} // verus!
