use request_engine::body::path_file_name;
use request_engine::body::part_mime;
use request_engine::body::plan_body;
use request_engine::body::plan_form;
use request_engine::body::BodyPlan;
use request_engine::http::plan_http_request;
use request_engine::http::plan_query;
use request_engine::http::plan_transport;
use request_engine::models::AuthKind;
use request_engine::models::BodyKind;
use request_engine::models::FormField;
use request_engine::models::HttpHeader;
use request_engine::models::HttpRequest;
use request_engine::models::MultipartPart;
use request_engine::models::UrlParameter;
use request_engine::models::Workspace;

fn field(name: &str, value: &str, enabled: bool) -> FormField {
    FormField { name: name.to_string(), value: value.to_string(), enabled }
}

fn part(name: &str, value: &str, file_path: &str, content_type: &str) -> MultipartPart {
    MultipartPart {
        name: name.to_string(),
        value: value.to_string(),
        file_path: file_path.to_string(),
        content_type: content_type.to_string(),
        enabled: true,
    }
}

#[test]
fn png_part_without_explicit_type_is_guessed() {
    assert_eq!(part_mime("", "photo.png"), Some("image/png".to_string()));
}

#[test]
fn part_with_neither_type_nor_file_is_text() {
    assert_eq!(part_mime("", ""), None);
}

#[test]
fn explicit_content_type_wins_over_the_guess() {
    assert_eq!(part_mime("text/csv", "photo.png"), Some("text/csv".to_string()));
}

#[test]
fn unknown_extension_falls_back_to_octet_stream() {
    assert_eq!(
        part_mime("", "blob.zz9zz"),
        Some("application/octet-stream".to_string())
    );
}

#[test]
fn file_name_is_the_last_path_component() {
    assert_eq!(path_file_name("a/b/photo.png"), "photo.png");
    assert_eq!(path_file_name("photo.png"), "photo.png");
    assert_eq!(path_file_name("c:\\dir\\photo.png"), "photo.png");
}

#[test]
fn form_keeps_enabled_named_fields_in_order() {
    let fields = vec![
        field("a", "1", true),
        field("", "skipped", true),
        field("b", "2", false),
        field("c", "3", true),
    ];
    let pairs = plan_form(&fields);
    assert_eq!(
        pairs,
        vec![
            ("a".to_string(), "1".to_string()),
            ("c".to_string(), "3".to_string()),
        ]
    );
}

#[test]
fn binary_body_without_a_file_is_a_terminal_error() {
    let r = plan_body(&BodyKind::BinaryFile { file_path: "".to_string() });
    assert_eq!(r.unwrap_err(), "filePath not set");
}

#[test]
fn binary_body_names_its_file() {
    let r = plan_body(&BodyKind::BinaryFile { file_path: "/tmp/data.bin".to_string() });
    match r.unwrap() {
        BodyPlan::BinaryBody { file_path } => assert_eq!(file_path, "/tmp/data.bin"),
        _ => panic!("expected a binary plan"),
    }
}

#[test]
fn multipart_parts_are_planned_with_mime_and_file_name() {
    let parts = vec![
        part("pic", "", "shots/photo.png", ""),
        part("note", "hello", "", ""),
        MultipartPart {
            name: "".to_string(),
            value: "skipped".to_string(),
            file_path: "".to_string(),
            content_type: "".to_string(),
            enabled: true,
        },
    ];
    let planned = match plan_body(&BodyKind::MultipartForm { parts }).unwrap() {
        BodyPlan::MultipartBody { parts } => parts,
        _ => panic!("expected a multipart plan"),
    };
    assert_eq!(planned.len(), 2);
    assert_eq!(planned[0].name, "pic");
    assert_eq!(planned[0].mime, Some("image/png".to_string()));
    assert_eq!(planned[0].file_name, Some("photo.png".to_string()));
    assert_eq!(planned[1].name, "note");
    assert_eq!(planned[1].text_value, "hello");
    assert_eq!(planned[1].mime, None);
    assert_eq!(planned[1].file_name, None);
}

#[test]
fn query_keeps_enabled_named_parameters_in_order() {
    let params = vec![
        UrlParameter { name: "q".to_string(), value: "1".to_string(), enabled: true },
        UrlParameter { name: "".to_string(), value: "x".to_string(), enabled: true },
        UrlParameter { name: "off".to_string(), value: "y".to_string(), enabled: false },
        UrlParameter { name: "page".to_string(), value: "2".to_string(), enabled: true },
    ];
    let q = plan_query(&params);
    assert_eq!(
        q,
        vec![
            ("q".to_string(), "1".to_string()),
            ("page".to_string(), "2".to_string()),
        ]
    );
}

fn workspace(follow: bool, validate: bool, timeout: i64) -> Workspace {
    Workspace {
        id: "wk_1".to_string(),
        name: "w".to_string(),
        setting_follow_redirects: follow,
        setting_validate_certificates: validate,
        setting_request_timeout: timeout,
    }
}

#[test]
fn transport_follows_the_workspace_settings() {
    let c = plan_transport(&workspace(true, true, 0));
    assert_eq!(c.redirect_limit, 10);
    assert!(c.gzip && c.brotli && c.deflate);
    assert!(!c.referer);
    assert!(!c.accept_invalid_certs);
    assert_eq!(c.timeout_ms, None);

    let c = plan_transport(&workspace(false, false, 30000));
    assert_eq!(c.redirect_limit, 0);
    assert!(c.accept_invalid_certs);
    assert_eq!(c.timeout_ms, Some(30000));
}

#[test]
fn a_whole_request_plans_in_one_call() {
    let req = HttpRequest {
        id: "rq_1".to_string(),
        workspace_id: "wk_1".to_string(),
        method: "POST".to_string(),
        url: "api.example.dev/things".to_string(),
        headers: vec![HttpHeader {
            name: "X-Extra".to_string(),
            value: "1".to_string(),
            enabled: true,
        }],
        url_parameters: vec![UrlParameter {
            name: "v".to_string(),
            value: "2".to_string(),
            enabled: true,
        }],
        body: BodyKind::TextBody { text: "{\"a\":1}".to_string() },
        auth: AuthKind::Bearer { token: "t".to_string() },
    };
    let p = plan_http_request(&req).unwrap();
    assert_eq!(p.url, "https://api.example.dev/things");
    assert_eq!(p.method, "POST");
    assert_eq!(p.query, vec![("v".to_string(), "2".to_string())]);
    assert_eq!(p.headers.len(), 4);
    assert_eq!(p.headers[2].1, "Bearer t");
    assert_eq!(p.headers[3].0, "X-Extra");
    match p.body {
        BodyPlan::TextBody { content } => assert_eq!(content, "{\"a\":1}"),
        _ => panic!("expected a text body"),
    }
}
