use deploytix::aur::rpc::{
    is_valid_package_name, parse_info_response, AurRpc, HttpGet, InfoResult, RpcResponse, AUR_REPO,
    AUR_RPC_BASE,
};
use deploytix::error::{DeploytixError, Result};
use serde_json::Value;
use std::sync::Mutex;

fn texts(v: &Value, key: &str) -> Vec<String> {
    match v.get(key) {
        Some(Value::Array(items)) => items
            .iter()
            .map(|i| i.as_str().expect("a text").to_string())
            .collect(),
        _ => Vec::new(),
    }
}

fn text(v: &Value, key: &str) -> Option<String> {
    v.get(key).and_then(|t| t.as_str()).map(|t| t.to_string())
}

fn result_of(v: &Value) -> InfoResult {
    InfoResult {
        name: text(v, "Name").expect("a name"),
        version: text(v, "Version").expect("a version"),
        description: text(v, "Description"),
        url: text(v, "URL"),
        license: texts(v, "License"),
        groups: texts(v, "Groups"),
        depends: texts(v, "Depends"),
        make_depends: texts(v, "MakeDepends"),
        check_depends: texts(v, "CheckDepends"),
        opt_depends: texts(v, "OptDepends"),
        provides: texts(v, "Provides"),
        conflicts: texts(v, "Conflicts"),
        replaces: texts(v, "Replaces"),
    }
}

fn response(body: &str) -> RpcResponse {
    let v: Value = serde_json::from_str(body).expect("a document");
    let results = match v.get("results") {
        Some(Value::Array(items)) => items.iter().map(result_of).collect(),
        _ => Vec::new(),
    };
    RpcResponse {
        kind: text(&v, "type").unwrap_or_default(),
        error: text(&v, "error"),
        results,
    }
}

struct CannedHttp {
    body: String,
    calls: Mutex<Vec<String>>,
}

impl CannedHttp {
    fn new(body: &str) -> Self {
        Self {
            body: body.to_string(),
            calls: Mutex::new(Vec::new()),
        }
    }
    fn urls(&self) -> Vec<String> {
        self.calls.lock().unwrap().clone()
    }
}

impl HttpGet for CannedHttp {
    fn get(&mut self, url: &str) -> Result<RpcResponse> {
        self.calls.lock().unwrap().push(url.to_string());
        Ok(response(&self.body))
    }
}

struct FailingHttp;

impl HttpGet for FailingHttp {
    fn get(&mut self, _url: &str) -> Result<RpcResponse> {
        Err(DeploytixError::CommandFailed {
            command: "curl".into(),
            stderr: "no network".into(),
        })
    }
}

const HHD_INFO: &str = r#"{
      "resultcount": 1,
      "results": [{
        "Name": "hhd-git",
        "Version": "3.1.3-1",
        "Description": "Handheld Daemon",
        "URL": "https://github.com/hhd-dev/hhd",
        "License": ["GPL-3.0-or-later"],
        "Depends": ["python>=3.10", "python-evdev", "hhd-ui"],
        "MakeDepends": ["git", "python-build"],
        "OptDepends": ["adjustor: TDP control"],
        "Provides": ["hhd"],
        "Conflicts": ["hhd"]
      }],
      "type": "multiinfo",
      "version": 5
    }"#;

#[test]
fn info_maps_every_dependency_class_onto_the_package_model() {
    let pkgs = parse_info_response(response(HHD_INFO)).unwrap();
    assert_eq!(pkgs.len(), 1);
    let p = &pkgs[0];
    assert_eq!(p.name, "hhd-git");
    assert_eq!(p.version, "3.1.3-1");
    assert_eq!(p.repo, AUR_REPO, "AUR packages must be distinguishable");
    assert_eq!(p.depends.len(), 3);
    assert_eq!(p.makedepends.len(), 2);
    assert_eq!(p.provides[0].name, "hhd");
    assert_eq!(p.conflicts[0].name, "hhd");
}

#[test]
fn version_constraints_survive_the_mapping() {
    let p = &parse_info_response(response(HHD_INFO)).unwrap()[0];
    let python = p.depends.iter().find(|d| d.name == "python").unwrap();
    assert_eq!(python.constraint.as_deref(), Some(">=3.10"));
}

#[test]
fn optdepend_descriptions_survive_the_mapping() {
    let p = &parse_info_response(response(HHD_INFO)).unwrap()[0];
    let adj = p.optdepends.iter().find(|d| d.name == "adjustor").unwrap();
    assert_eq!(adj.description.as_deref(), Some("TDP control"));
}

#[test]
fn a_package_the_aur_does_not_have_is_absent_not_an_error() {
    let empty = r#"{"resultcount":0,"results":[],"type":"multiinfo","version":5}"#;
    assert!(parse_info_response(response(empty)).unwrap().is_empty());
}

#[test]
fn an_error_envelope_becomes_an_error_not_an_empty_result() {
    let err = r#"{"type":"error","error":"Too many package results.","results":[]}"#;
    let e = parse_info_response(response(err)).unwrap_err();
    assert!(e.to_text().contains("Too many package results"));
}

#[test]
fn an_error_without_a_reason_is_still_an_error() {
    let e = parse_info_response(response(r#"{"type":"error"}"#)).unwrap_err();
    assert!(e.to_text().contains("unspecified error"));
}

#[test]
fn missing_optional_fields_do_not_break_the_mapping() {
    let minimal = r#"{"resultcount":1,"results":[{"Name":"x","Version":"1"}],"type":"multiinfo"}"#;
    let p = &parse_info_response(response(minimal)).unwrap()[0];
    assert_eq!(p.name, "x");
    assert!(p.depends.is_empty());
    assert!(p.description.is_empty());
}

#[test]
fn every_requested_name_reaches_the_query() {
    let http = CannedHttp::new(HHD_INFO);
    let mut rpc = AurRpc::with_base(http, "https://example.test/rpc/v5");
    rpc.info(&["hhd-git", "hhd-ui"]).unwrap();
    let url = &rpc.http.urls()[0];
    assert!(url.contains("arg[]=hhd-git"), "{url}");
    assert!(url.contains("arg[]=hhd-ui"), "{url}");
    assert_eq!(
        url,
        "https://example.test/rpc/v5/info?arg[]=hhd-git&arg[]=hhd-ui"
    );
}

#[test]
fn large_lookups_are_split_into_batches() {
    let http = CannedHttp::new(r#"{"resultcount":0,"results":[],"type":"multiinfo"}"#);
    let mut rpc = AurRpc::with_base(http, "https://example.test/rpc/v5");
    let names: Vec<String> = (0..120).map(|i| format!("pkg{i}")).collect();
    let refs: Vec<&str> = names.iter().map(String::as_str).collect();
    rpc.info(&refs).unwrap();
    assert_eq!(rpc.http.urls().len(), 3);
}

#[test]
fn names_that_cannot_be_packages_are_never_requested() {
    let http = CannedHttp::new(HHD_INFO);
    let mut rpc = AurRpc::with_base(http, "https://example.test/rpc/v5");
    rpc.info(&["good-name", "bad&name=x", "../../etc/passwd"])
        .unwrap();
    let url = &rpc.http.urls()[0];
    assert!(url.contains("arg[]=good-name"));
    assert!(!url.contains('&') || !url.contains("bad"), "{url}");
    assert!(!url.contains(".."), "{url}");
}

#[test]
fn an_all_invalid_lookup_makes_no_request_at_all() {
    let http = CannedHttp::new(HHD_INFO);
    let mut rpc = AurRpc::with_base(http, "https://example.test/rpc/v5");
    assert!(rpc.info(&["!!!", ""]).unwrap().is_empty());
    assert!(rpc.http.urls().is_empty());
}

#[test]
fn package_name_validation_matches_the_aur_charset() {
    for ok in [
        "yay",
        "hhd-git",
        "python-evdev",
        "gtk+",
        "a.b_c@d",
        "lib32-glibc",
    ] {
        assert!(is_valid_package_name(ok), "{ok} should be valid");
    }
    for bad in [
        "",
        "-leading",
        ".hidden",
        "has space",
        "amp&",
        "q?x",
        "sl/ash",
    ] {
        assert!(!is_valid_package_name(bad), "{bad} should be rejected");
    }
}

#[test]
fn providers_query_uses_the_provides_index_not_info() {
    let http = CannedHttp::new(HHD_INFO);
    let mut rpc = AurRpc::with_base(http, "https://example.test/rpc/v5");
    rpc.providers_of("hhd").unwrap();
    let url = &rpc.http.urls()[0];
    assert!(url.contains("/search/hhd"), "{url}");
    assert!(url.contains("by=provides"), "{url}");
}

#[test]
fn a_name_that_cannot_be_a_package_has_no_providers() {
    let mut rpc = AurRpc::new(CannedHttp::new(HHD_INFO));
    assert!(rpc.providers_of("a b").unwrap().is_empty());
    assert!(rpc.http.urls().is_empty());
    assert_eq!(rpc.base, AUR_RPC_BASE);
}

#[test]
fn a_network_failure_surfaces_rather_than_looking_like_a_missing_package() {
    let mut rpc = AurRpc::new(FailingHttp);
    let e = rpc.info(&["hhd-git"]).unwrap_err();
    assert!(e.to_text().contains("no network"));
}
