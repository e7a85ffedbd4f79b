use nvhosts::config::{Header, Redirect, Site};
use nvhosts::render::render_site;

fn site(domain: &str) -> Site {
    Site { domain: String::from(domain), headers: None, redirects: None, extra: None }
}

#[test]
fn minimal_site_exact_document() {
    let rendered = render_site(&site("a.b"));
    let expected = "server {\n    listen 80;\n    listen [::]:80;\n    server_name www.a.b;\n    return 301 https://a.b$request_uri;\n}\n\nserver {\n    listen 80;\n    listen [::]:80;\n    server_name a.b;\n\n    location / {\n        proxy_pass http://127.0.0.1:3900/a.b/;\n    }\n}\n";
    assert_eq!(rendered, expected);
}

#[test]
fn www_site_redirect_block_uses_stripped_name() {
    let rendered = render_site(&site("www.a.b"));
    assert!(rendered.contains("server_name a.b;\n    return 301 https://www.a.b$request_uri;"));
    assert!(rendered.contains("server_name www.a.b;\n"));
}

#[test]
fn header_rule_content() {
    let mut s = site("example.com");
    s.headers = Some(vec![Header {
        for_field: String::from("/*"),
        values: vec![(String::from("Cache-Control"), String::from("public"))],
    }]);
    let rendered = render_site(&s);
    assert!(rendered.contains("server_name example.com;"));
    assert!(rendered.contains("return 301 https://example.com$request_uri"));
    assert!(rendered.contains("add_header Cache-Control \"public\" always;"));
    assert!(rendered.contains("location /* {"));
}

#[test]
fn redirect_rule_content() {
    let mut s = site("example.com");
    s.redirects = Some(vec![Redirect {
        from_field: String::from("/example"),
        to: String::from("http://example.com"),
        status_code: 301,
    }]);
    let rendered = render_site(&s);
    assert!(rendered.contains("location = /example {"));
    assert!(rendered.contains("return 301 http://example.com;"));
}

#[test]
fn default_status_code_is_rendered() {
    let mut s = site("example.com");
    s.redirects = Some(vec![Redirect {
        from_field: String::from("/moved"),
        to: String::from("https://elsewhere.example"),
        status_code: nvhosts::config::default_redirect_status_code(),
    }]);
    let rendered = render_site(&s);
    assert!(rendered.contains("return 302 https://elsewhere.example;"));
}

#[test]
fn header_values_keep_input_order() {
    let mut s = site("example.com");
    s.headers = Some(vec![Header {
        for_field: String::from("/"),
        values: vec![
            (String::from("X-One"), String::from("1")),
            (String::from("X-Two"), String::from("2")),
        ],
    }]);
    let rendered = render_site(&s);
    let one = rendered.find("add_header X-One \"1\" always;").unwrap();
    let two = rendered.find("add_header X-Two \"2\" always;").unwrap();
    assert!(one < two);
}

#[test]
fn extra_text_is_appended_verbatim() {
    let mut s = site("example.com");
    s.extra = Some(String::from("    # hand-tuned part"));
    let rendered = render_site(&s);
    assert!(rendered.contains("\n    # hand-tuned part\n}\n"));
    assert!(rendered.ends_with("}\n"));
}
