use animescrape::browser::download_link;
use animescrape::error::ScrapeError;
use animescrape::selector::{find, query_outcome, read_attribute, read_text, Element};
use animescrape::session::get_csrf_token;

const PLAYER: &str = r#"<html><body><div class="plyr__controls"><a class="plyr__controls__item plyr__control" href="https://x/video.mp4">Download</a></div></body></html>"#;

#[test]
fn player_link_found_and_href_read() {
    let el = find(PLAYER, "a.plyr__controls__item.plyr__control").unwrap();
    assert_eq!(read_attribute(&el, "href").unwrap(), "https://x/video.mp4");
    assert_eq!(read_text(&el).unwrap(), "Download");
}

#[test]
fn download_link_of_rendered_page() {
    assert_eq!(download_link(PLAYER).unwrap(), "https://x/video.mp4");
}

#[test]
fn missing_heading_is_not_found() {
    let doc = "<html><body><h2 class=\"title\">Naruto</h2></body></html>";
    assert_eq!(find(doc, "h1.title").unwrap_err(), ScrapeError::NotFound);
}

#[test]
fn invalid_selector_is_distinct_from_no_match() {
    assert_eq!(find(PLAYER, "a[[").unwrap_err(), ScrapeError::InvalidSelector);
    assert_eq!(find(PLAYER, "table").unwrap_err(), ScrapeError::NotFound);
}

#[test]
fn first_match_in_document_order() {
    let doc = r#"<p class="t">one</p><p class="t">two</p>"#;
    let el = find(doc, "p.t").unwrap();
    assert_eq!(read_text(&el).unwrap(), "one");
}

#[test]
fn absent_attribute_and_empty_text() {
    let el = find(r#"<a id="k"></a>"#, "a").unwrap();
    assert_eq!(read_attribute(&el, "href").unwrap_err(), ScrapeError::AttributeMissing);
    assert_eq!(read_attribute(&el, "id").unwrap(), "k");
    assert_eq!(read_text(&el).unwrap_err(), ScrapeError::NoText);
}

#[test]
fn page_without_player_link() {
    assert_eq!(download_link("<p>loading</p>").unwrap_err(), ScrapeError::NotFound);
    let no_href = r#"<a class="plyr__controls__item plyr__control">x</a>"#;
    assert_eq!(download_link(no_href).unwrap_err(), ScrapeError::AttributeMissing);
}

#[test]
fn query_outcome_by_case() {
    assert_eq!(query_outcome(None).unwrap_err(), ScrapeError::InvalidSelector);
    assert_eq!(query_outcome(Some(None)).unwrap_err(), ScrapeError::NotFound);
    let el = Element { attrs: vec![("href".to_string(), "u".to_string())], text: String::new() };
    assert_eq!(read_attribute(&query_outcome(Some(Some(el))).unwrap(), "href").unwrap(), "u");
}

#[test]
fn csrf_token_from_meta_tag() {
    let page = r#"<html><head><meta name="csrf-token" content="T"></head><body></body></html>"#;
    assert_eq!(get_csrf_token(page).unwrap(), "T");
}

#[test]
fn csrf_token_absent_tag_and_absent_value_differ() {
    assert_eq!(get_csrf_token("<html></html>").unwrap_err(), ScrapeError::NotFound);
    let no_content = r#"<meta name="csrf-token">"#;
    assert_eq!(get_csrf_token(no_content).unwrap_err(), ScrapeError::AttributeMissing);
}
