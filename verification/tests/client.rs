use proxmox_client::client::ProxmoxApiService;
use proxmox_client::error::{ConfigurationError, RequestBuildError};
use proxmox_client::json::{Json, JsonNumber};
use proxmox_client::request::{Header, Method, Request};
use proxmox_client::uri::Uri;

const TOKEN: &str = "PVEAPIToken=root@pam!monitor=8a4c5f0e-1b2d-4c3e-9f00-aabbccddeeff";

fn client() -> ProxmoxApiService {
    ProxmoxApiService::new("https://pve.example:8006", TOKEN).unwrap()
}

fn target(path_and_query: &str) -> Uri {
    Uri {
        scheme: "https".to_owned(),
        authority: "pve.example:8006".to_owned(),
        path_and_query: path_and_query.to_owned(),
    }
}

fn token_header() -> Vec<Header> {
    vec![Header { name: "Authorization".to_owned(), value: TOKEN.to_owned() }]
}

#[test]
fn new_keeps_base_and_token() {
    let c = client();
    assert_eq!(c.base(), &target("/"));
    assert_eq!(c.auth(), TOKEN);
}

#[test]
fn new_fixes_the_path_of_the_base_to_the_root() {
    let c = ProxmoxApiService::new("https://pve.example:8006/api2/json?x=1", TOKEN).unwrap();
    assert_eq!(c.base(), &target("/"));
}

#[test]
fn new_configures_tls_without_verification() {
    let c = client();
    assert!(c.tls().insecure_skip_verify);
    assert_eq!(c.tls().alpn_protocols, vec![b"http/1.1".to_vec(), b"h2".to_vec()]);
}

#[test]
fn new_rejects_a_malformed_base() {
    assert_eq!(ProxmoxApiService::new("", TOKEN).err(), Some(ConfigurationError::InvalidBaseUri));
    assert_eq!(
        ProxmoxApiService::new("pve.example", TOKEN).err(),
        Some(ConfigurationError::InvalidBaseUri)
    );
    assert_eq!(
        ProxmoxApiService::new("/api2/json", TOKEN).err(),
        Some(ConfigurationError::InvalidBaseUri)
    );
    assert_eq!(
        ProxmoxApiService::new("https://pve example", TOKEN).err(),
        Some(ConfigurationError::InvalidBaseUri)
    );
}

#[test]
fn new_rejects_a_token_with_a_newline() {
    assert_eq!(
        ProxmoxApiService::new("https://pve.example:8006", "token\nInjected: yes").err(),
        Some(ConfigurationError::InvalidAuthToken)
    );
    assert_eq!(
        ProxmoxApiService::new("https://pve.example:8006", "\n").err(),
        Some(ConfigurationError::InvalidAuthToken)
    );
}

#[test]
fn new_rejects_a_token_with_a_control_character() {
    for bad in ["a\rb", "a\0b", "a\x7fb", "a\x1fb", "\x01"] {
        assert_eq!(
            ProxmoxApiService::new("https://pve.example:8006", bad).err(),
            Some(ConfigurationError::InvalidAuthToken)
        );
    }
}

#[test]
fn new_accepts_tabs_spaces_and_letters_beyond_ascii() {
    for good in ["", " ", "a\tb", "~", "gr\u{fc}n", "\u{20ac}\u{1f600}"] {
        let c = ProxmoxApiService::new("https://pve.example:8006", good).unwrap();
        assert_eq!(c.auth(), good);
    }
}

#[test]
fn new_looks_at_the_base_first() {
    assert_eq!(
        ProxmoxApiService::new("no base", "bad\ntoken").err(),
        Some(ConfigurationError::InvalidBaseUri)
    );
}

#[test]
fn get_request_carries_the_token() {
    let request = client().make_get_request("/api2/json/version").unwrap();
    assert_eq!(
        request,
        Request {
            method: Method::Get,
            uri: target("/api2/json/version"),
            headers: token_header(),
            body: None,
        }
    );
    assert_eq!(request.header("Authorization"), Some(&TOKEN.to_owned()));
}

#[test]
fn post_request_carries_token_and_body() {
    let body = Json::Object(vec![
        ("vmid".to_owned(), Json::Number(JsonNumber::PosInt(100))),
        ("delta".to_owned(), Json::Number(JsonNumber::NegInt(-3))),
        ("load".to_owned(), Json::Number(JsonNumber::Real("0.25".to_owned()))),
        ("name".to_owned(), Json::String("web \"one\"".to_owned())),
        ("tags".to_owned(), Json::Array(vec![Json::Bool(true), Json::Null])),
    ]);
    let request = client().make_post_request("/api2/json/nodes/n1/qemu", &body).unwrap();
    assert_eq!(
        request,
        Request {
            method: Method::Post,
            uri: target("/api2/json/nodes/n1/qemu"),
            headers: token_header(),
            body: Some(
                b"{\"vmid\":100,\"delta\":-3,\"load\":0.25,\"name\":\"web \\\"one\\\"\",\"tags\":[true,null]}"
                    .to_vec()
            ),
        }
    );
    assert_eq!(request.header("Authorization"), Some(&TOKEN.to_owned()));
}

#[test]
fn requests_reject_what_is_no_path() {
    let c = client();
    assert_eq!(c.make_get_request("/a b"), Err(RequestBuildError::InvalidPath));
    assert_eq!(c.make_get_request("relative"), Err(RequestBuildError::InvalidPath));
    assert_eq!(c.make_post_request("/a b", &Json::Null), Err(RequestBuildError::InvalidPath));
}

#[test]
fn post_request_rejects_a_body_that_cannot_be_written() {
    let c = client();
    let body = Json::Array(vec![Json::Number(JsonNumber::Real("twelve".to_owned()))]);
    assert_eq!(c.make_post_request("/x", &body), Err(RequestBuildError::SerializationError));
}

#[test]
fn post_request_looks_at_the_path_first() {
    let c = client();
    let body = Json::Number(JsonNumber::Real("twelve".to_owned()));
    assert_eq!(c.make_post_request("/a b", &body), Err(RequestBuildError::InvalidPath));
}

#[test]
fn request_for_a_target_that_was_built() {
    let c = client();
    let get = c.get_request_for(Some(target("/x"))).unwrap();
    assert_eq!(
        get,
        Request { method: Method::Get, uri: target("/x"), headers: token_header(), body: None }
    );
    let post = c.post_request_for(Some(target("/y")), Some(vec![1, 2, 3])).unwrap();
    assert_eq!(
        post,
        Request {
            method: Method::Post,
            uri: target("/y"),
            headers: token_header(),
            body: Some(vec![1, 2, 3]),
        }
    );
}

#[test]
fn request_for_a_target_that_was_not_built() {
    let c = client();
    assert_eq!(c.get_request_for(None), Err(RequestBuildError::InvalidPath));
    assert_eq!(c.post_request_for(None, Some(vec![1])), Err(RequestBuildError::InvalidPath));
    assert_eq!(c.post_request_for(None, None), Err(RequestBuildError::InvalidPath));
    assert_eq!(
        c.post_request_for(Some(target("/y")), None),
        Err(RequestBuildError::SerializationError)
    );
}

#[test]
fn failed_calls_leave_the_client_as_it_was() {
    let c = client();
    assert!(c.make_get_request("/a b").is_err());
    assert_eq!(c.base(), &target("/"));
    assert_eq!(c.auth(), TOKEN);
    assert!(c.make_get_request("/ok").is_ok());
}

#[test]
fn insert_header_replaces_the_headers_of_that_name() {
    let mut request = Request::new(Method::Get, target("/"));
    assert_eq!(request.header("Accept"), None);
    request.insert_header("Accept", "text/plain");
    request.insert_header("Authorization", "one");
    request.insert_header("Accept", "application/json");
    assert_eq!(
        request.headers,
        vec![
            Header { name: "Authorization".to_owned(), value: "one".to_owned() },
            Header { name: "Accept".to_owned(), value: "application/json".to_owned() },
        ]
    );
    assert_eq!(request.header("Accept"), Some(&"application/json".to_owned()));
    assert_eq!(request.header("accept"), None);
}

#[test]
fn header_finds_the_first_of_a_name() {
    let mut request = Request::new(Method::Post, target("/"));
    request.headers.push(Header { name: "X".to_owned(), value: "1".to_owned() });
    request.headers.push(Header { name: "X".to_owned(), value: "2".to_owned() });
    assert_eq!(request.header("X"), Some(&"1".to_owned()));
    request.insert_header("X", "3");
    assert_eq!(request.headers, vec![Header { name: "X".to_owned(), value: "3".to_owned() }]);
}

#[test]
fn body_sets_the_body_only() {
    let request = Request::new(Method::Post, target("/")).body(vec![123, 125]);
    assert_eq!(
        request,
        Request {
            method: Method::Post,
            uri: target("/"),
            headers: vec![],
            body: Some(vec![123, 125]),
        }
    );
}
