use nvhosts::config::{Config, Header, Redirect, Site, check_site};
use nvhosts::pipeline::{GenerationError, aggregate_outcomes, generate_documents};

fn site(domain: &str) -> Site {
    Site { domain: String::from(domain), headers: None, redirects: None, extra: None }
}

#[test]
fn example_config_shape() {
    let config = Config::example();
    assert_eq!(config.sites.len(), 1);
    let s = &config.sites[0];
    assert_eq!(s.domain, "example.com");
    let headers = s.headers.as_ref().unwrap();
    assert_eq!(headers.len(), 1);
    assert_eq!(headers[0].for_field, "/*");
    assert_eq!(headers[0].values.len(), 3);
    assert_eq!(headers[0].values[0].0, "Cache-Control");
    assert_eq!(headers[0].values[0].1, "public");
    assert_eq!(headers[0].values[1].0, "Referrer-Policy");
    assert_eq!(headers[0].values[1].1, "strict-origin-when-cross-origin");
    assert_eq!(headers[0].values[2].0, "Strict-Transport-Security");
    assert_eq!(headers[0].values[2].1, "max-age=31536000; includeSubDomains; preload");
    let redirects = s.redirects.as_ref().unwrap();
    assert_eq!(redirects.len(), 1);
    assert_eq!(redirects[0].from_field, "/example");
    assert_eq!(redirects[0].to, "http://example.com");
    assert_eq!(redirects[0].status_code, 301);
    assert!(s.extra.is_none());
    assert!(check_site(s));
}

#[test]
fn filename_appends_conf() {
    assert_eq!(site("example.com").filename(), "example.com.conf");
    assert_eq!(site("a").filename(), "a.conf");
}

#[test]
fn generate_documents_on_example() {
    let config = Config::example();
    let docs = generate_documents(&config).unwrap();
    assert_eq!(docs.len(), 1);
    assert_eq!(docs[0].filename, "example.com.conf");
    assert!(docs[0].content.contains("server_name example.com;"));
    assert!(docs[0].content.contains("add_header Cache-Control \"public\" always;"));
    assert!(docs[0].content.contains("location = /example {"));
    assert!(docs[0].content.contains("return 301 http://example.com;"));
}

#[test]
fn rerun_is_byte_identical() {
    let config = Config {
        sites: vec![site("one.example"), site("www.two.example"), Site {
            domain: String::from("three.example"),
            headers: Some(vec![Header {
                for_field: String::from("/"),
                values: vec![(String::from("X-A"), String::from("1"))],
            }]),
            redirects: Some(vec![Redirect {
                from_field: String::from("/old"),
                to: String::from("https://three.example/new"),
                status_code: 308,
            }]),
            extra: Some(String::from("# extra")),
        }],
    };
    let first_run = generate_documents(&config).unwrap();
    let second_run = generate_documents(&config).unwrap();
    assert_eq!(first_run.len(), second_run.len());
    for (a, b) in first_run.iter().zip(second_run.iter()) {
        assert_eq!(a.filename, b.filename);
        assert_eq!(a.content.as_bytes(), b.content.as_bytes());
    }
}

#[test]
fn empty_domain_is_rejected_loudly() {
    let config = Config { sites: vec![site("ok.example"), site("")] };
    let err = generate_documents(&config).unwrap_err();
    match err {
        GenerationError::InvalidConfig { domain } => assert_eq!(domain, ""),
        _ => panic!("expected an invalid-config failure"),
    }
}

#[test]
fn bad_status_code_is_rejected_loudly() {
    let mut s = site("ok.example");
    s.redirects = Some(vec![Redirect {
        from_field: String::from("/x"),
        to: String::from("https://ok.example/y"),
        status_code: 200,
    }]);
    let config = Config { sites: vec![s] };
    let err = generate_documents(&config).unwrap_err();
    match err {
        GenerationError::InvalidConfig { domain } => assert_eq!(domain, "ok.example"),
        _ => panic!("expected an invalid-config failure"),
    }
}

#[test]
fn repeated_header_name_is_rejected_loudly() {
    let mut s = site("dup.example");
    s.headers = Some(vec![Header {
        for_field: String::from("/"),
        values: vec![
            (String::from("X-A"), String::from("1")),
            (String::from("X-A"), String::from("2")),
        ],
    }]);
    assert!(!check_site(&s));
    let config = Config { sites: vec![s] };
    let err = generate_documents(&config).unwrap_err();
    match err {
        GenerationError::InvalidConfig { domain } => assert_eq!(domain, "dup.example"),
        _ => panic!("expected an invalid-config failure"),
    }
}

#[test]
fn aggregate_all_ok() {
    let outcomes: Vec<Result<String, GenerationError>> =
        vec![Ok(String::from("a.conf")), Ok(String::from("b.conf"))];
    assert!(aggregate_outcomes(&outcomes).is_ok());
}

#[test]
fn aggregate_keeps_sibling_failures_apart() {
    let outcomes: Vec<Result<String, GenerationError>> = vec![
        Ok(String::from("a.conf")),
        Err(GenerationError::Io {
            domain: String::from("broken.example"),
            path: String::from("out/broken.example.conf"),
            message: String::from("permission denied"),
        }),
        Ok(String::from("c.conf")),
    ];
    let failures = aggregate_outcomes(&outcomes).unwrap_err();
    assert_eq!(failures.len(), 1);
    match &failures[0] {
        GenerationError::Io { domain, path, message } => {
            assert_eq!(domain, "broken.example");
            assert_eq!(path, "out/broken.example.conf");
            assert_eq!(message, "permission denied");
        }
        _ => panic!("expected an io failure"),
    }
}

#[test]
fn aggregate_reports_every_failure_in_order() {
    let outcomes: Vec<Result<String, GenerationError>> = vec![
        Err(GenerationError::TaskFault { domain: String::from("one.example") }),
        Ok(String::from("two.example.conf")),
        Err(GenerationError::Render {
            domain: String::from("three.example"),
            message: String::from("missing field"),
        }),
    ];
    let failures = aggregate_outcomes(&outcomes).unwrap_err();
    assert_eq!(failures.len(), 2);
    assert!(matches!(&failures[0], GenerationError::TaskFault { domain } if domain == "one.example"));
    assert!(matches!(&failures[1], GenerationError::Render { domain, .. } if domain == "three.example"));
}

#[test]
fn aggregate_of_empty_batch_is_ok() {
    let outcomes: Vec<Result<String, GenerationError>> = vec![];
    assert!(aggregate_outcomes(&outcomes).is_ok());
}
