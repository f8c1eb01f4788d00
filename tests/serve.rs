use hyper_routerify_swagger_ui::routes::RouteKind;
use hyper_routerify_swagger_ui::serve::{
    asset_reply, asset_reply_from, config_reply_from, index_reply, unrouted_reply, ConfigError, Mount,
    MountedSpec,
};

const SPEC: &[u8] = b"{\"openapi\":\"3.0.0\",\"info\":{\"title\":\"t\",\"version\":\"1\"}}";

fn mount() -> Mount {
    Mount::new(
        MountedSpec::new("openapi.json".to_string(), SPEC.to_vec()),
        swagger_ui::Config::default(),
    )
}

fn body_text(body: &[u8]) -> String {
    String::from_utf8(body.to_vec()).unwrap()
}

#[test]
fn scenario_root_redirects() {
    let r = index_reply("/api/v1/swagger");
    assert_eq!(r.status, 302);
    assert_eq!(
        r.location.as_deref(),
        Some("/api/v1/swagger/index.html?configUrl=/api/v1/swagger/swagger-ui-config.json")
    );
    assert!(r.body.is_empty());
}

#[test]
fn scenario_config_names_spec_url() {
    let m = mount();
    let r = m.config_reply("/api/v1/swagger/swagger-ui-config.json").ok().unwrap();
    assert_eq!(r.status, 200);
    assert_eq!(r.content_type.as_deref(), Some("application/json"));
    let text = body_text(&r.body);
    assert!(text.contains("\"url\":\"/api/v1/swagger/openapi.json\""));
}

#[test]
fn config_under_two_prefixes() {
    let m = mount();
    let a = body_text(&m.config_reply("/a/swagger-ui-config.json").ok().unwrap().body);
    let b = body_text(&m.config_reply("/b/c/swagger-ui-config.json").ok().unwrap().body);
    assert!(a.contains("\"url\":\"/a/openapi.json\""));
    assert!(b.contains("\"url\":\"/b/c/openapi.json\""));
}

#[test]
fn scenario_spec_served_verbatim() {
    let m = mount();
    let r = m.spec_reply();
    assert_eq!(r.status, 200);
    assert_eq!(r.body, SPEC.to_vec());
    assert_eq!(r.content_type.as_deref(), Some("application/json"));
}

#[test]
fn spec_with_unknown_extension_is_octet_stream() {
    let m = Mount::new(
        MountedSpec::new("spec.zzzunknown".to_string(), vec![1, 2, 3]),
        swagger_ui::Config::default(),
    );
    let r = m.spec_reply();
    assert_eq!(r.content_type.as_deref(), Some("application/octet-stream"));
    assert_eq!(r.body, vec![1, 2, 3]);
}

#[test]
fn scenario_index_page_asset() {
    let r = asset_reply("/api/v1/swagger/index.html");
    assert_eq!(r.status, 200);
    assert_eq!(r.content_type.as_deref(), Some("text/html"));
    let stored = swagger_ui::Assets::get("index.html").unwrap();
    assert_eq!(r.body, stored.to_vec());
    assert!(!r.body.is_empty());
}

#[test]
fn scenario_unknown_asset_not_found() {
    let r = asset_reply("/api/v1/swagger/does-not-exist.js");
    assert_eq!(r.status, 404);
    assert!(r.body.is_empty());
    assert!(r.content_type.is_none());
}

#[test]
fn every_listed_asset_is_served() {
    let m = mount();
    let mut count = 0;
    for route in m.routes.iter().filter(|r| r.kind == RouteKind::Asset) {
        let path = format!("/api/v1/swagger{}", route.path);
        let r = asset_reply(&path);
        assert_eq!(r.status, 200);
        let name = &route.path[1..];
        assert_eq!(r.body, swagger_ui::Assets::get(name).unwrap().to_vec());
        count += 1;
    }
    assert!(count >= 8);
}

#[test]
fn scenario_routes_of_mount() {
    let m = mount();
    assert_eq!(m.route_for(""), Some(RouteKind::Index));
    assert_eq!(m.route_for("/swagger-ui-config.json"), Some(RouteKind::Config));
    assert_eq!(m.route_for("/openapi.json"), Some(RouteKind::Spec));
    assert_eq!(m.route_for("/index.html"), Some(RouteKind::Asset));
    assert_eq!(m.route_for("/does-not-exist.js"), None);
}

#[test]
fn asset_reply_from_found_and_missing() {
    let r = asset_reply_from("swagger-ui.css", Some(vec![9, 8]));
    assert_eq!(r.status, 200);
    assert_eq!(r.content_type.as_deref(), Some("text/css"));
    assert_eq!(r.body, vec![9, 8]);
    let r = asset_reply_from("swagger-ui.css", None);
    assert_eq!(r.status, 404);
    assert!(r.body.is_empty());
}

#[test]
fn config_reply_from_text_and_error() {
    let r = config_reply_from(Ok("{\"url\":\"/x\"}".to_string())).ok().unwrap();
    assert_eq!(r.status, 200);
    assert_eq!(r.body, b"{\"url\":\"/x\"}".to_vec());
    let err = serde_json::from_str::<serde_json::Value>("{").unwrap_err();
    assert_eq!(config_reply_from(Err(err)).err(), Some(ConfigError::Unserializable));
}

#[test]
fn respond_dispatches_by_kind() {
    let m = mount();
    let path = "/api/v1/swagger";
    assert_eq!(m.respond(RouteKind::Index, path).ok().unwrap().status, 302);
    let spec = m.respond(RouteKind::Spec, "/api/v1/swagger/openapi.json").ok().unwrap();
    assert_eq!(spec.body, SPEC.to_vec());
    let cfg = m
        .respond(RouteKind::Config, "/api/v1/swagger/swagger-ui-config.json")
        .ok()
        .unwrap();
    assert_eq!(cfg.status, 200);
    let miss = m.respond(RouteKind::Asset, "/api/v1/swagger/nope.js").ok().unwrap();
    assert_eq!(miss.status, 404);
}

#[test]
fn repeated_requests_identical() {
    let m = mount();
    let a = m.config_reply("/p/swagger-ui-config.json").ok().unwrap();
    let b = m.config_reply("/p/swagger-ui-config.json").ok().unwrap();
    assert_eq!(a.body, b.body);
    assert_eq!(m.spec_reply().body, m.spec_reply().body);
    assert_eq!(index_reply("/p").location, index_reply("/p").location);
    assert_eq!(asset_reply("/p/index.html").body, asset_reply("/p/index.html").body);
}

#[test]
fn unrouted_path_gets_empty_not_found() {
    let m = mount();
    assert_eq!(m.route_for("/does-not-exist.js"), None);
    let r = unrouted_reply("/api/v1/swagger/does-not-exist.js");
    assert_eq!(r.status, 404);
    assert!(r.body.is_empty());
    assert!(r.content_type.is_none());
    assert!(r.location.is_none());
}

#[test]
fn config_reply_at_host_root() {
    let m = mount();
    let r = m.config_reply("/swagger-ui-config.json").ok().unwrap();
    assert_eq!(r.status, 200);
    assert!(body_text(&r.body).contains("\"url\":\"/openapi.json\""));
}

#[test]
fn stored_url_is_replaced() {
    let mut config = swagger_ui::Config::default();
    config.url = "https://example.com/static.json".to_string();
    let m = Mount::new(MountedSpec::new("openapi.json".to_string(), SPEC.to_vec()), config);
    let text = body_text(&m.config_reply("/p/swagger-ui-config.json").ok().unwrap().body);
    assert!(text.contains("\"url\":\"/p/openapi.json\""));
    assert!(!text.contains("example.com"));
}
