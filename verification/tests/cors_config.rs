use actix_cors::Cors;
use actix_practice::cors::{
    cors_conf_any, cors_conf_cred, cors_conf_dynamic, cors_conf_fail, cors_conf_scope,
    cors_conf_serval, cors_conf_single, cors_from_settings, cors_setting, is_myapp_subdomain,
    is_origin_header_safe, origins_are_header_safe, CorsSettings, OneOrMany,
};
use actix_web::dev::{Service, Transform};
use actix_web::http::header::HeaderValue;
use actix_web::http::Method;
use actix_web::test::{ok_service, TestRequest};

fn settings() -> CorsSettings {
    CorsSettings {
        origins: None,
        methods: None,
        headers: None,
        expose_headers: None,
        credentials: false,
        send_wildcard: false,
        max_age: None,
        block_on_origin_mismatch: false,
    }
}

/// What the middleware answers to one request, with header lists sorted.
#[derive(Debug, PartialEq)]
struct Answer {
    status: u16,
    allow_origin: Option<String>,
    allow_methods: Vec<String>,
    allow_headers: Vec<String>,
    max_age: Option<String>,
    credentials: Option<String>,
}

fn text(v: Option<&HeaderValue>) -> Option<String> {
    v.map(|h| h.to_str().unwrap().to_string())
}

fn list(v: Option<&HeaderValue>) -> Vec<String> {
    let mut items: Vec<String> = match v {
        Some(h) => h
            .to_str()
            .unwrap()
            .split(',')
            .map(|s| s.trim().to_string())
            .filter(|s| !s.is_empty())
            .collect(),
        None => Vec::new(),
    };
    items.sort();
    items
}

/// Sends one request through the middleware built from `cors`: a preflight
/// when `preflight` holds, else a plain request of `method`.
fn ask(cors: &Cors, origin: &str, method: &str, headers: &str, preflight: bool) -> Answer {
    futures::executor::block_on(async {
        let mw = cors.new_transform(ok_service()).await.expect("middleware starts");
        let mut req = TestRequest::default().insert_header(("Origin", origin));
        if preflight {
            req = req
                .method(Method::OPTIONS)
                .insert_header(("Access-Control-Request-Method", method));
            if !headers.is_empty() {
                req = req.insert_header(("Access-Control-Request-Headers", headers));
            }
        } else {
            req = req.method(Method::from_bytes(method.as_bytes()).unwrap());
        }
        let res = mw.call(req.to_srv_request()).await.expect("an answer");
        let h = res.headers();
        Answer {
            status: res.status().as_u16(),
            allow_origin: text(h.get("access-control-allow-origin")),
            allow_methods: list(h.get("access-control-allow-methods")),
            allow_headers: list(h.get("access-control-allow-headers")),
            max_age: text(h.get("access-control-max-age")),
            credentials: text(h.get("access-control-allow-credentials")),
        }
    })
}

fn starts(cors: &Cors) -> bool {
    futures::executor::block_on(async { cors.new_transform(ok_service()).await.is_ok() })
}

const ORIGINS: [&str; 4] = [
    "https://www.myapp.test",
    "https://admin.example.com",
    "https://api.myapp.test",
    "https://evil.example",
];
const METHODS: [&str; 4] = ["GET", "POST", "DELETE", "PUT"];
const HEADERS: [&str; 3] = ["", "authorization", "x-custom"];

/// The answers of `cors` to a fixed set of requests.
fn behaviour(cors: &Cors) -> Vec<Answer> {
    let mut out = Vec::new();
    for o in ORIGINS {
        for m in METHODS {
            for h in HEADERS {
                out.push(ask(cors, o, m, h, true));
            }
            out.push(ask(cors, o, m, "", false));
        }
    }
    out
}

#[test]
fn settings_reproduce_single_origin_config() {
    let mut s = settings();
    s.origins = Some(OneOrMany::One("https://www.myapp.test".to_string()));
    s.methods = Some(OneOrMany::Many(vec!["GET".into(), "POST".into()]));
    s.headers = Some(OneOrMany::Many(vec!["authorization".into(), "content-type".into()]));
    s.max_age = Some(3600);
    assert_eq!(behaviour(&cors_from_settings(&s)), behaviour(&cors_conf_single()));
}

#[test]
fn settings_reproduce_public_config() {
    let mut s = settings();
    s.origins = Some(OneOrMany::One("*".to_string()));
    s.methods = Some(OneOrMany::One("*".to_string()));
    s.headers = Some(OneOrMany::One("*".to_string()));
    s.send_wildcard = true;
    assert_eq!(behaviour(&cors_from_settings(&s)), behaviour(&cors_conf_any()));
}

#[test]
fn settings_reproduce_board_config() {
    let mut s = settings();
    s.origins = Some(OneOrMany::Many(vec!["https://www.myapp.test".into()]));
    s.methods = Some(OneOrMany::Many(vec!["GET".into(), "POST".into()]));
    s.max_age = Some(3600);
    assert_eq!(behaviour(&cors_from_settings(&s)), behaviour(&cors_setting()));
    s.block_on_origin_mismatch = true;
    assert_ne!(behaviour(&cors_from_settings(&s)), behaviour(&cors_setting()));
}

#[test]
fn configurations_differ() {
    let all = [
        behaviour(&cors_conf_single()),
        behaviour(&cors_conf_serval()),
        behaviour(&cors_conf_any()),
        behaviour(&cors_conf_cred()),
        behaviour(&cors_conf_scope()),
        behaviour(&cors_conf_dynamic()),
    ];
    for i in 0..all.len() {
        for j in 0..all.len() {
            assert_eq!(i == j, all[i] == all[j], "{} {}", i, j);
        }
    }
}

#[test]
fn single_origin_preflight() {
    let c = cors_conf_single();
    let a = ask(&c, "https://www.myapp.test", "GET", "authorization", true);
    assert_eq!(a.status, 200);
    assert_eq!(a.allow_origin.as_deref(), Some("https://www.myapp.test"));
    assert_eq!(a.allow_methods, vec!["GET".to_string(), "POST".to_string()]);
    assert_eq!(
        a.allow_headers,
        vec!["authorization".to_string(), "content-type".to_string()]
    );
    assert_eq!(a.max_age.as_deref(), Some("3600"));
    assert_eq!(a.credentials, None);
    assert_eq!(ask(&c, "https://evil.example", "GET", "", true).status, 400);
    assert_eq!(ask(&c, "https://www.myapp.test", "DELETE", "", true).status, 400);
}

#[test]
fn two_origins_are_allowed() {
    let c = cors_conf_serval();
    for o in ["https://www.myapp.test", "https://admin.example.com"] {
        let a = ask(&c, o, "DELETE", "", true);
        assert_eq!(a.status, 200);
        assert_eq!(a.allow_origin.as_deref(), Some(o));
    }
    assert_eq!(ask(&c, "https://evil.example", "GET", "", true).status, 400);
}

#[test]
fn public_config_answers_wildcard() {
    let a = ask(&cors_conf_any(), "https://evil.example", "PUT", "x-custom", true);
    assert_eq!(a.status, 200);
    assert_eq!(a.allow_origin.as_deref(), Some("*"));
    assert_eq!(a.allow_methods.len(), 9);
    assert_eq!(a.allow_headers, vec!["x-custom".to_string()]);
}

#[test]
fn credentials_config_sends_credentials() {
    let a = ask(&cors_conf_cred(), "https://www.myapp.test", "POST", "", true);
    assert_eq!(a.status, 200);
    assert_eq!(a.credentials.as_deref(), Some("true"));
    assert_eq!(a.max_age, None);
}

#[test]
fn scope_config_has_no_max_age() {
    let a = ask(&cors_conf_scope(), "https://www.myapp.test", "GET", "", true);
    assert_eq!(a.status, 200);
    assert_eq!(a.max_age, None);
    assert_eq!(a.allow_headers, Vec::<String>::new());
}

#[test]
fn failing_config_is_refused_at_start() {
    assert!(!starts(&cors_conf_fail()));
    assert!(starts(&cors_conf_any()));
}

#[test]
fn dynamic_config_allows_subdomains() {
    let c = cors_conf_dynamic();
    let a = ask(&c, "https://api.myapp.test", "GET", "", false);
    assert_eq!(a.allow_origin.as_deref(), Some("https://api.myapp.test"));
    let b = ask(&c, "https://evil.example", "GET", "", false);
    assert_eq!(b.allow_origin, None);
}

#[test]
fn settings_wildcard_origin_allows_any_origin() {
    let mut s = settings();
    s.origins = Some(OneOrMany::One("*".to_string()));
    let c = cors_from_settings(&s);
    assert!(starts(&c));
    let a = ask(&c, "https://evil.example", "GET", "", false);
    assert_eq!(a.allow_origin.as_deref(), Some("https://evil.example"));
}

#[test]
fn settings_listed_origins_only() {
    let mut s = settings();
    s.origins = Some(OneOrMany::Many(vec![
        "https://a.example".into(),
        "https://b.example".into(),
    ]));
    let c = cors_from_settings(&s);
    for o in ["https://a.example", "https://b.example"] {
        assert_eq!(ask(&c, o, "GET", "", false).allow_origin.as_deref(), Some(o));
    }
    assert_eq!(ask(&c, "https://c.example", "GET", "", false).allow_origin, None);
}

#[test]
fn settings_block_on_mismatch() {
    let mut s = settings();
    s.origins = Some(OneOrMany::One("https://a.example".to_string()));
    s.block_on_origin_mismatch = true;
    let c = cors_from_settings(&s);
    assert_eq!(ask(&c, "https://c.example", "GET", "", false).status, 400);
    s.block_on_origin_mismatch = false;
    let d = cors_from_settings(&s);
    assert_eq!(ask(&d, "https://c.example", "GET", "", false).status, 200);
}

#[test]
fn settings_with_refused_values_fail_to_start() {
    let mut s = settings();
    s.origins = Some(OneOrMany::Many(vec!["*".into()]));
    assert!(!starts(&cors_from_settings(&s)));
    let mut t = settings();
    t.headers = Some(OneOrMany::One("bad header".to_string()));
    assert!(!starts(&cors_from_settings(&t)));
    let mut u = settings();
    u.methods = Some(OneOrMany::One("GE T".to_string()));
    assert!(!starts(&cors_from_settings(&u)));
}

#[test]
fn settings_max_age_and_credentials() {
    let mut s = settings();
    s.origins = Some(OneOrMany::One("https://a.example".to_string()));
    s.methods = Some(OneOrMany::One("GET".to_string()));
    s.max_age = Some(60);
    s.credentials = true;
    let a = ask(&cors_from_settings(&s), "https://a.example", "GET", "", true);
    assert_eq!(a.status, 200);
    assert_eq!(a.max_age.as_deref(), Some("60"));
    assert_eq!(a.credentials.as_deref(), Some("true"));
    assert_eq!(a.allow_methods, vec!["GET".to_string()]);
}

#[test]
fn myapp_subdomains() {
    assert!(is_myapp_subdomain(b"https://api.myapp.test"));
    assert!(is_myapp_subdomain(b".myapp.test"));
    assert!(!is_myapp_subdomain(b"https://www.myapp.test.evil"));
    assert!(!is_myapp_subdomain(b"myapp.test"));
    assert!(!is_myapp_subdomain(b""));
}

#[test]
fn origins_that_would_panic_are_detected() {
    assert!(is_origin_header_safe("https://www.myapp.test"));
    assert!(is_origin_header_safe("*"));
    assert!(!is_origin_header_safe("https://a.test#\u{7f}"));
    assert!(!is_origin_header_safe("https://a.test#\n"));
    // Not a URI: actix-cors records an error instead of panicking.
    assert!(is_origin_header_safe("bad\u{7f}origin"));
    assert!(origins_are_header_safe(&None));
    assert!(origins_are_header_safe(&Some(OneOrMany::One("*".to_string()))));
    assert!(!origins_are_header_safe(&Some(OneOrMany::Many(vec![
        "https://a.example".into(),
        "https://a.test#\n".into(),
    ]))));
    assert!(origins_are_header_safe(&Some(OneOrMany::Many(vec![
        "https://a.example".into(),
        "*".into(),
    ]))));
}
