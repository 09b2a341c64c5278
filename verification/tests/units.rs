use debate_server::assets::static_get;
use debate_server::json::APIResponse;
use debate_server::strutil::{str_eq, str_starts_with, u128_to_dec};
use debate_server::templates::{debate_html, error_html, home_html, rendered_body};

#[test]
fn decimal_formatting_is_exact() {
    assert_eq!(u128_to_dec(0), "0");
    assert_eq!(u128_to_dec(7), "7");
    assert_eq!(u128_to_dec(10), "10");
    assert_eq!(u128_to_dec(1234567890123), "1234567890123");
    assert_eq!(
        u128_to_dec(u128::MAX),
        "340282366920938463463374607431768211455"
    );
}

#[test]
fn api_json_is_written_exactly() {
    let payload = APIResponse {
        debate: String::from("a\"b\\c"),
        elapsed_time: 5,
        answer: String::from("x"),
    };
    assert_eq!(
        payload.to_json(),
        "{\"debate\":\"a\\\"b\\\\c\",\"elapsed_time\":5,\"answer\":\"x\"}"
    );
}

#[test]
fn control_characters_are_escaped() {
    let payload = APIResponse {
        debate: String::from("a\u{1}\u{1f}b"),
        elapsed_time: 0,
        answer: String::from(""),
    };
    let json = payload.to_json();
    assert!(json.contains("\\u0001"));
    assert!(json.contains("\\u001f"));
    let v: serde_json::Value = serde_json::from_str(&json).unwrap();
    assert_eq!(v["debate"].as_str(), Some("a\u{1}\u{1f}b"));
}

#[test]
fn registry_holds_exactly_the_two_assets() {
    let logo = static_get("logo.png").unwrap();
    assert_eq!(logo.mime, "image/png");
    assert!(!logo.content.is_empty());
    let css = static_get("style.css").unwrap();
    assert_eq!(css.mime, "text/css");
    assert!(!css.content.is_empty());
    assert!(static_get("logo.PNG").is_none());
    assert!(static_get("").is_none());
    assert!(static_get("nope.txt").is_none());
}

#[test]
fn templates_embed_their_arguments() {
    let home = home_html();
    assert!(home.contains("/static/style.css"));
    let page = debate_html("le sujet", &vec![String::from("une réponse")]);
    assert!(page.contains("<h1>le sujet</h1>"));
    assert!(page.contains("<li>une réponse</li>"));
    let err = error_html("Titre", "Message long.");
    assert!(err.contains("<h1>Titre</h1>"));
    assert!(err.contains("<p>Message long.</p>"));
}

#[test]
fn debate_template_keeps_answer_order() {
    let answers = vec![String::from("un"), String::from("deux"), String::from("trois")];
    let page = debate_html("x", &answers);
    let first = page.find("<li>un</li>").unwrap();
    let second = page.find("<li>deux</li>").unwrap();
    let third = page.find("<li>trois</li>").unwrap();
    assert!(first < second && second < third);
}

#[test]
fn render_faults_degrade_to_the_fallback() {
    assert_eq!(rendered_body(Ok(String::from("<p>ok</p>"))), "<p>ok</p>");
    assert_eq!(rendered_body(Err(())), "Render failed");
}

#[test]
fn string_helpers_agree_with_std() {
    assert!(str_eq("", ""));
    assert!(str_eq("débat", "débat"));
    assert!(!str_eq("débat", "debat"));
    assert!(!str_eq("a", "ab"));
    assert!(str_starts_with("/static/logo.png", "/static/"));
    assert!(str_starts_with("x", ""));
    assert!(!str_starts_with("/stat", "/static/"));
}
