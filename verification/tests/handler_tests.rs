use transfer_rs::common::{
    content_types, open_method, project_dir, HandlerError, Method, OpenMethod, Request,
    ResponseType,
};
use transfer_rs::config::Config;
use transfer_rs::common::push_path;
use transfer_rs::handlers::list::{get_with_manifest, handle as list_handle, manifest_to_json, ListStep, Manifest, ManifestOutcome};
use transfer_rs::handlers::{error_response, handle_request, init_handlers, HandlerKind};
use transfer_rs::routing::{params_of, route_of};

fn request(method: Method, url: &str) -> Request {
    Request { method, url: url.to_string() }
}

fn cursor(r: ResponseType) -> (u16, Vec<(String, String)>, String) {
    match r {
        ResponseType::Cursor(c) => (
            c.status,
            c.headers.into_iter().map(|h| (h.field, h.value)).collect(),
            c.data,
        ),
        ResponseType::File(_) => panic!("expected an in-memory response"),
    }
}

fn serve(method: Method, url: &str) -> Result<ResponseType, HandlerError> {
    let handlers = init_handlers();
    let r = request(method, url);
    handle_request(&r, route_of(url), params_of(url), &handlers, &Config::defaults(&"/a/b/c/exe".to_string()))
}

fn plain() -> Vec<(String, String)> {
    vec![("Content-Type".to_string(), "text/plain; charset=UTF-8".to_string())]
}

#[test]
fn table_holds_three_routes() {
    let t = init_handlers();
    assert_eq!(t.len(), 3);
    assert!(matches!(t.get("not_found"), Some(HandlerKind::NotFound)));
    assert!(matches!(t.get(""), Some(HandlerKind::Root)));
    assert!(matches!(t.get("download"), Some(HandlerKind::Download)));
}

#[test]
fn download_get_is_not_implemented() {
    let r = serve(Method::Get, "/download?file=a").ok().unwrap();
    assert_eq!(cursor(r), (200, plain(), "Not Implemented".to_string()));
}

#[test]
fn download_post_is_refused() {
    match serve(Method::Post, "/download") {
        Err(e) => {
            assert_eq!(e.code, 404);
            assert_eq!(e.message, "Path not supported");
        }
        Ok(_) => panic!("expected a refusal"),
    }
}

#[test]
fn unknown_route_is_not_found() {
    let r = serve(Method::Get, "/nothing/here").ok().unwrap();
    assert_eq!(cursor(r), (200, plain(), "not found".to_string()));
}

#[test]
fn root_route_answers_default() {
    let r = serve(Method::Get, "/").ok().unwrap();
    assert_eq!(cursor(r), (200, plain(), "Default Response".to_string()));
}

#[test]
fn error_becomes_plain_text_response() {
    let r = error_response(HandlerError::new(404, "Path not supported".to_string()));
    assert_eq!(
        cursor(r),
        (404, vec![("Content-Type".to_string(), "text/plain".to_string())], "Path not supported".to_string())
    );
}

#[test]
fn response_constructors() {
    assert_eq!(cursor(ResponseType::default()), (200, plain(), "Default Response".to_string()));
    assert_eq!(cursor(ResponseType::not_implemented()), (200, plain(), "Not Implemented".to_string()));
    assert_eq!(cursor(ResponseType::from_string_full(201, None, "x".to_string())), (201, vec![], "x".to_string()));
}

#[test]
fn content_type_values() {
    let ct = content_types();
    assert_eq!(ct.html, "text/html; charset=UTF-8");
    assert_eq!(ct.css, "text/css; charset=UTF-8");
    assert_eq!(ct.js, "text/javascript; charset=UTF-8");
}

#[test]
fn open_methods() {
    assert!(matches!(open_method('r'), Ok(OpenMethod::Read)));
    assert!(matches!(open_method('w'), Ok(OpenMethod::Create)));
    match open_method('x') {
        Err(e) => assert_eq!(e.message(), "File open method not supported"),
        Ok(_) => panic!("expected unsupported"),
    }
}

#[test]
fn project_dir_drops_three_components() {
    assert_eq!(project_dir(&"/a/b/c/d/exe".to_string()), "/a/b");
    assert_eq!(project_dir(&"/".to_string()), "/");
}

#[test]
fn manifest_json_matches_serde_json() {
    let m = Manifest { video_count: 2, videos: vec!["a \"b\"".to_string(), "c".to_string()] };
    let mut map = serde_json::Map::new();
    map.insert("video_count".to_string(), serde_json::Value::from(2usize));
    map.insert(
        "videos".to_string(),
        serde_json::Value::Array(vec![
            serde_json::Value::String("a \"b\"".to_string()),
            serde_json::Value::String("c".to_string()),
        ]),
    );
    let expected = serde_json::Value::Object(map).to_string();
    assert_eq!(manifest_to_json(&m), expected);
    assert_eq!(manifest_to_json(&m), "{\"video_count\":2,\"videos\":[\"a \\\"b\\\"\",\"c\"]}");
    let empty = Manifest { video_count: 0, videos: vec![] };
    assert_eq!(manifest_to_json(&empty), "{\"video_count\":0,\"videos\":[]}");
}

#[test]
fn list_reads_manifest_in_storage_dir() {
    let mut config = Config::defaults(&"/a/b/c/exe".to_string());
    config.set_storage_dir("/srv/videos".to_string());
    match list_handle(&request(Method::Get, "/list"), vec![], &config) {
        ListStep::ReadManifest(p) => assert_eq!(p, "/srv/videos/manifest.toml"),
        ListStep::Respond(_) => panic!("expected a read"),
    }
    config.set_storage_dir("/srv/other/".to_string());
    match list_handle(&request(Method::Get, "/list"), vec![], &config) {
        ListStep::ReadManifest(p) => assert_eq!(p, "/srv/other/manifest.toml"),
        ListStep::Respond(_) => panic!("expected a read"),
    }
    match list_handle(&request(Method::Put, "/list"), vec![], &config) {
        ListStep::Respond(Err(e)) => {
            assert_eq!(e.code, 404);
            assert_eq!(e.message, "Path not supported");
        }
        _ => panic!("expected a refusal"),
    }
}

#[test]
fn list_answers_after_reading() {
    match get_with_manifest(ManifestOutcome::OpenFailed("no such file".to_string())) {
        Err(e) => {
            assert_eq!(e.code, 500);
            assert_eq!(e.message, "Internal error while opening manifest file: no such file");
        }
        Ok(_) => panic!("expected a failure"),
    }
    match get_with_manifest(ManifestOutcome::ParseFailed("bad toml".to_string())) {
        Err(e) => {
            assert_eq!(e.code, 500);
            assert_eq!(e.message, "Internal error while parsing manifest file: bad toml");
        }
        Ok(_) => panic!("expected a failure"),
    }
    let m = Manifest { video_count: 1, videos: vec!["v".to_string()] };
    let r = get_with_manifest(ManifestOutcome::Loaded(m)).ok().unwrap();
    assert_eq!(
        cursor(r),
        (
            200,
            vec![("Content-Type".to_string(), "application/json".to_string())],
            "{\"video_count\":1,\"videos\":[\"v\"]}".to_string()
        )
    );
}

#[test]
fn unix_path_joining() {
    assert_eq!(push_path(&"/a".to_string(), "b"), "/a/b");
    assert_eq!(push_path(&"/a/".to_string(), "b"), "/a/b");
    assert_eq!(push_path(&"".to_string(), "b"), "b");
    assert_eq!(push_path(&"/a".to_string(), "/etc"), "/etc");
    assert_eq!(push_path(&"/a".to_string(), ""), "/a/");
    let mut p = std::path::PathBuf::from("/a");
    p.push("b");
    assert_eq!(push_path(&"/a".to_string(), "b"), p.to_string_lossy());
}
