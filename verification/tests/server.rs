use debate_server::handlers::{intercept, serve, FAR_EXPIRES_SECS};
use debate_server::http::{RespBody, Response};

fn page_text(r: &Response) -> String {
    match &r.body {
        RespBody::Page(s) => s.clone(),
        RespBody::Raw(_) => panic!("expected a page body"),
    }
}

#[test]
fn home_is_served() {
    let r = serve("/", None, 0, 0);
    assert_eq!(r.status, 200);
    let body = page_text(&r);
    assert!(body.contains("<form action=\"/debate\""));
    assert!(body.contains("Le grand débat"));
}

#[test]
fn debate_page_echoes_query_verbatim() {
    let r = serve("/debate", Some("Les chaussettes, objet ou concept ?"), 0, 0);
    assert_eq!(r.status, 200);
    let body = page_text(&r);
    assert!(body.contains("Les chaussettes, objet ou concept ?"));
    assert!(body.contains("<li>Cuillère.</li>"));
}

#[test]
fn debate_page_without_query_is_rejected() {
    let r = serve("/debate", None, 0, 0);
    assert_eq!(r.status, 400);
}

#[test]
fn api_answers_with_json_fields() {
    let r = serve("/api", Some("pain au chocolat"), 0, 42);
    assert_eq!(r.status, 200);
    assert_eq!(
        r.content_type.as_deref(),
        Some("application/json; charset=utf-8")
    );
    let body = page_text(&r);
    let v: serde_json::Value = serde_json::from_str(&body).unwrap();
    assert_eq!(v["debate"].as_str(), Some("pain au chocolat"));
    assert_eq!(v["answer"].as_str(), Some("Cuillère."));
    assert_eq!(v["elapsed_time"].as_u64(), Some(42));
    assert!(v["elapsed_time"].as_u64().unwrap() < u64::MAX);
}

#[test]
fn api_escaping_survives_a_json_parser() {
    let tricky = "a\"b\\c\nd\te\u{1}f\rg";
    let r = serve("/api", Some(tricky), 0, 7);
    assert_eq!(r.status, 200);
    let body = page_text(&r);
    let v: serde_json::Value = serde_json::from_str(&body).unwrap();
    assert_eq!(v["debate"].as_str(), Some(tricky));
}

#[test]
fn api_without_query_gives_structured_error() {
    let r = serve("/api", None, 0, 0);
    assert_eq!(r.status, 400);
    assert_eq!(
        r.content_type.as_deref(),
        Some("application/json; charset=utf-8")
    );
    let body = page_text(&r);
    let v: serde_json::Value = serde_json::from_str(&body).unwrap();
    assert!(v.get("error").is_some());
    assert!(v["error"].as_str().unwrap().contains("debate"));
}

#[test]
fn static_logo_is_served_with_far_expires() {
    let now: u64 = 1_700_000_000;
    let r = serve("/static/logo.png", None, now, 0);
    assert_eq!(r.status, 200);
    match &r.body {
        RespBody::Raw(bytes) => {
            assert!(!bytes.is_empty());
            assert_eq!(&bytes[..4], &[0x89, 0x50, 0x4e, 0x47]);
        }
        RespBody::Page(_) => panic!("expected raw bytes"),
    }
    assert!(r.content_type.as_deref().unwrap().starts_with("image/"));
    assert_eq!(r.expires, Some(now + FAR_EXPIRES_SECS));
    assert_eq!(FAR_EXPIRES_SECS, 180 * 24 * 60 * 60);
}

#[test]
fn static_stylesheet_is_served() {
    let r = serve("/static/style.css", None, 0, 0);
    assert_eq!(r.status, 200);
    assert_eq!(r.content_type.as_deref(), Some("text/css"));
    match &r.body {
        RespBody::Raw(bytes) => assert!(!bytes.is_empty()),
        RespBody::Page(_) => panic!("expected raw bytes"),
    }
}

#[test]
fn missing_static_file_gets_the_error_page() {
    let r = serve("/static/does-not-exist.xyz", None, 0, 0);
    assert_eq!(r.status, 404);
    assert_eq!(r.content_type.as_deref(), Some("text/html; charset=utf-8"));
    assert_eq!(r.reason.as_deref(), Some("No such static file."));
    let body = page_text(&r);
    assert!(body.contains("Page introuvable"));
}

#[test]
fn unknown_route_gets_the_error_page() {
    let r = serve("/nonexistent-route", None, 0, 0);
    assert_eq!(r.status, 404);
    assert_eq!(r.content_type.as_deref(), Some("text/html; charset=utf-8"));
    let body = page_text(&r);
    assert!(body.contains("Page introuvable"));
    assert!(body.contains("sous le canapé"));
}

#[test]
fn repeated_requests_are_identical() {
    let a = serve("/debate", Some("la raclette"), 5, 1);
    let b = serve("/debate", Some("la raclette"), 5, 1);
    assert_eq!(a, b);
    let c = serve("/static/logo.png", None, 9, 0);
    let d = serve("/static/logo.png", None, 9, 0);
    assert_eq!(c, d);
}

#[test]
fn elapsed_time_changes_nothing_but_the_api_body() {
    let a = serve("/api", Some("sujet"), 0, 1);
    let b = serve("/api", Some("sujet"), 0, 2);
    assert_eq!(a.status, b.status);
    assert_eq!(a.content_type, b.content_type);
    assert_eq!(a.expires, b.expires);
    let va: serde_json::Value = serde_json::from_str(&page_text(&a)).unwrap();
    let vb: serde_json::Value = serde_json::from_str(&page_text(&b)).unwrap();
    assert_eq!(va["debate"], vb["debate"]);
    assert_eq!(va["answer"], vb["answer"]);
}

#[test]
fn interceptor_rewrites_500_and_preserves_the_rest() {
    let r = Response {
        status: 500,
        content_type: None,
        expires: Some(123),
        reason: None,
        body: RespBody::Raw(Vec::new()),
    };
    let out = intercept(r);
    assert_eq!(out.status, 500);
    assert_eq!(out.expires, Some(123));
    assert_eq!(out.content_type.as_deref(), Some("text/html; charset=utf-8"));
    let body = page_text(&out);
    assert!(body.contains("Erreur interne du serveur"));
    assert!(body.contains("on va tout réparer"));
}

#[test]
fn interceptor_passes_ok_responses_through() {
    let r = Response {
        status: 200,
        content_type: None,
        expires: None,
        reason: None,
        body: RespBody::Page(String::from("salut")),
    };
    let out = intercept(r);
    assert_eq!(out.status, 200);
    assert_eq!(out.content_type, None);
    assert_eq!(page_text(&out), "salut");
}
