use request_engine::is_dev;
use request_engine::urlnorm::ensure_proto;
use request_engine::urlnorm::safe_uri;
use request_engine::urlnorm::schemeless_host;
use request_engine::urlnorm::str_eq_ignore_ascii_case;
use request_engine::urlnorm::str_starts_with;

#[test]
fn app_tld_forces_https() {
    assert_eq!(ensure_proto("example.app"), "https://example.app");
}

#[test]
fn plain_com_defaults_to_http() {
    assert_eq!(ensure_proto("example.com"), "http://example.com");
}

#[test]
fn explicit_scheme_is_kept() {
    assert_eq!(ensure_proto("https://x.dev"), "https://x.dev");
    assert_eq!(ensure_proto("http://example.app"), "http://example.app");
}

#[test]
fn dev_and_page_tlds_force_https() {
    assert_eq!(ensure_proto("my.dev"), "https://my.dev");
    assert_eq!(ensure_proto("docs.page"), "https://docs.page");
}

#[test]
fn port_and_path_do_not_hide_the_host() {
    assert_eq!(ensure_proto("example.dev:8080/v1?q=1"), "https://example.dev:8080/v1?q=1");
    assert_eq!(ensure_proto("example.com:8080/v1"), "http://example.com:8080/v1");
}

#[test]
fn userinfo_is_stripped_before_the_probe() {
    assert_eq!(ensure_proto("alice@example.page/x"), "https://alice@example.page/x");
}

#[test]
fn tld_match_ignores_ascii_case() {
    assert_eq!(ensure_proto("EXAMPLE.APP"), "https://EXAMPLE.APP");
}

#[test]
fn host_extraction() {
    assert_eq!(schemeless_host("example.com/a/b?q"), "example.com");
    assert_eq!(schemeless_host("bob@example.com:99/x"), "example.com");
    assert_eq!(schemeless_host(""), "");
}

#[test]
fn safe_uri_prefixes_schemeless_endpoints() {
    assert_eq!(safe_uri("localhost:50051"), "http://localhost:50051");
    assert_eq!(safe_uri("http://localhost:50051"), "http://localhost:50051");
    assert_eq!(safe_uri("https://grpc.example.com"), "https://grpc.example.com");
}

#[test]
fn prefix_and_case_helpers() {
    assert!(str_starts_with("https://x", "https://"));
    assert!(!str_starts_with("http://x", "https://"));
    assert!(str_eq_ignore_ascii_case("Content-Type", "content-type"));
    assert!(!str_eq_ignore_ascii_case("Content-Type", "content-typ"));
}

#[test]
fn release_build_is_not_dev() {
    assert!(!is_dev());
}

#[test]
fn an_empty_input_still_gets_a_scheme() {
    assert_eq!(ensure_proto(""), "http://");
    assert_eq!(safe_uri(""), "http://");
}
