use animescrape::error::ScrapeError;
use animescrape::json::Json;
use animescrape::record::search_entries_from_json;
use animescrape::session::{open_session, search_request_body, search_url};

const LANDING: &str = r#"<!DOCTYPE html><html><head><meta name="csrf-token" content="T"><title>x</title></head><body></body></html>"#;

fn s(v: &str) -> Json {
    Json::Str(v.to_string())
}

#[test]
fn search_sends_landing_token_and_reads_records() {
    let cookie = b"XSRF-TOKEN=abc; path=/".to_vec();
    let session = open_session(LANDING, vec![cookie.clone()]).unwrap();
    assert_eq!(session.csrf_token, "T");
    assert_eq!(session.set_cookies, vec![cookie]);
    let headers = session.headers();
    assert!(headers.contains(&("X-CSRF-TOKEN".to_string(), "T".to_string())));
    assert_eq!(headers[0], ("X-Requested-With".to_string(), "XMLHttpRequest".to_string()));
    assert_eq!(headers[2], ("Content-Type".to_string(), "application/json".to_string()));

    let body = search_request_body("naruto");
    match &body {
        Json::Object(e) => {
            assert_eq!(e[0], ("title".to_string(), s("naruto")));
            assert_eq!(e[6], ("offset".to_string(), Json::Number(0)));
            assert_eq!(e.len(), 9);
        }
        _ => panic!("the body is an object"),
    }

    let entry = Json::Object(vec![
        ("title_eng".to_string(), s("Naruto")),
        ("episodes_count".to_string(), Json::Number(220)),
        ("date".to_string(), s("2002")),
        ("type".to_string(), s("TV")),
        ("imageurl".to_string(), s("i")),
        ("slug".to_string(), s("naruto")),
        ("id".to_string(), Json::Number(1469)),
    ]);
    let resp = Json::Object(vec![("records".to_string(), Json::Array(vec![entry]))]);
    let found = search_entries_from_json(&resp).unwrap();
    assert_eq!(found.len(), 1);
    assert_eq!(found[0].slug, "naruto");
}

#[test]
fn session_refused_without_token() {
    assert_eq!(
        open_session("<html><body>maintenance</body></html>", vec![]).unwrap_err(),
        ScrapeError::CsrfTokenMissing
    );
    assert_eq!(
        open_session(r#"<meta name="csrf-token">"#, vec![]).unwrap_err(),
        ScrapeError::CsrfTokenMissing
    );
}

#[test]
fn session_keeps_cookie_bytes_that_are_not_text() {
    let raw = vec![b'a', b'=', 0xff];
    let session = open_session(LANDING, vec![raw.clone()]).unwrap();
    assert_eq!(session.set_cookies, vec![raw]);
}

#[test]
fn search_endpoint_below_base() {
    assert_eq!(search_url("https://www.animeunity.to"), "https://www.animeunity.to/archivio/get-animes");
}
