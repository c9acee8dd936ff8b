use animescrape::error::{Field, ScrapeError};
use animescrape::json::{merge, Json, MergeError};
use animescrape::record::{search_entries_from_json, Anime, AnimeStuff, EntryType, SearchEntry};

fn s(v: &str) -> Json {
    Json::Str(v.to_string())
}

fn obj(entries: Vec<(&str, Json)>) -> Json {
    Json::Object(entries.into_iter().map(|(k, v)| (k.to_string(), v)).collect())
}

fn naruto() -> Anime {
    Anime {
        name: "Naruto".to_string(),
        link: "https://x/anime/1469-naruto".to_string(),
        link_type: "episode-page".to_string(),
        total_episodes: 220,
        available_episodes: 218,
        image_path: "img/naruto.jpg".to_string(),
    }
}

#[test]
fn anime_round_trip() {
    let a = naruto();
    let back = Anime::from_json(&a.to_json()).unwrap();
    assert_eq!(back.name, a.name);
    assert_eq!(back.link, a.link);
    assert_eq!(back.link_type, a.link_type);
    assert_eq!(back.total_episodes, 220);
    assert_eq!(back.available_episodes, 218);
    assert_eq!(back.image_path, a.image_path);
}

#[test]
fn anime_stored_shape() {
    let j = naruto().to_json();
    let expected = obj(vec![(
        "Naruto",
        obj(vec![
            ("link", s("https://x/anime/1469-naruto")),
            ("link_type", s("episode-page")),
            ("total_episodes", Json::Number(220)),
            ("available_episodes", Json::Number(218)),
            ("image_path", s("img/naruto.jpg")),
        ]),
    )]);
    assert_eq!(j, expected);
}

#[test]
fn anime_missing_field_is_reported() {
    let j = obj(vec![(
        "Naruto",
        obj(vec![("link", s("l")), ("link_type", s("t")), ("available_episodes", Json::Number(1))]),
    )]);
    assert_eq!(
        Anime::from_json(&j).unwrap_err(),
        ScrapeError::FieldMissing(Field::TotalEpisodes)
    );
    let wrong = obj(vec![("Naruto", obj(vec![("link", Json::Number(3))]))]);
    assert_eq!(Anime::from_json(&wrong).unwrap_err(), ScrapeError::FieldInvalid(Field::Link));
    assert_eq!(Anime::from_json(&obj(vec![])).unwrap_err(), ScrapeError::FieldMissing(Field::Name));
    assert_eq!(Anime::from_json(&Json::Null).unwrap_err(), ScrapeError::NotAnObject);
}

fn record(date: Json) -> Json {
    obj(vec![
        ("title_eng", s("Naruto")),
        ("episodes_count", Json::Number(220)),
        ("date", date),
        ("type", s("TV")),
        ("imageurl", s("https://x/n.jpg")),
        ("slug", s("naruto")),
        ("id", Json::Number(1469)),
        ("title", s("ignored")),
    ])
}

#[test]
fn search_entry_date_coerced_from_string() {
    let e = SearchEntry::from_json(&record(s("2002"))).unwrap();
    assert_eq!(e.title, "Naruto");
    assert_eq!(e.episodes_count, 220);
    assert_eq!(e.date, 2002);
    assert_eq!(e.entry_type, EntryType::TV);
    assert_eq!(e.image_url, "https://x/n.jpg");
    assert_eq!(e.slug, "naruto");
    assert_eq!(e.id, 1469);
    assert_eq!(SearchEntry::from_json(&record(Json::Number(1999))).unwrap().date, 1999);
}

#[test]
fn search_entry_bad_date_or_type() {
    assert_eq!(
        SearchEntry::from_json(&record(s("20x2"))).unwrap_err(),
        ScrapeError::FieldInvalid(Field::Date)
    );
    let movie = obj(vec![
        ("title_eng", s("Film")),
        ("episodes_count", Json::Number(1)),
        ("date", s("+7")),
        ("type", s("Special")),
    ]);
    assert_eq!(
        SearchEntry::from_json(&movie).unwrap_err(),
        ScrapeError::FieldInvalid(Field::EntryType)
    );
}

#[test]
fn search_records_read_in_order() {
    let resp = obj(vec![("records", Json::Array(vec![record(s("2002")), record(s("2003"))]))]);
    let v = search_entries_from_json(&resp).unwrap();
    assert_eq!(v.len(), 2);
    assert_eq!(v[0].date, 2002);
    assert_eq!(v[1].date, 2003);
}

#[test]
fn search_response_without_records_is_malformed() {
    assert_eq!(search_entries_from_json(&obj(vec![])).unwrap_err(), ScrapeError::MalformedResponse);
    let not_array = obj(vec![("records", Json::Null)]);
    assert_eq!(search_entries_from_json(&not_array).unwrap_err(), ScrapeError::MalformedResponse);
}

#[test]
fn search_records_empty_array_is_empty_list() {
    let resp = obj(vec![("records", Json::Array(vec![]))]);
    assert_eq!(search_entries_from_json(&resp).unwrap().len(), 0);
}

#[test]
fn search_records_first_bad_entry_reported() {
    let bad = obj(vec![("title_eng", s("x"))]);
    let resp = obj(vec![("records", Json::Array(vec![record(s("1")), bad, Json::Null]))]);
    assert_eq!(
        search_entries_from_json(&resp).unwrap_err(),
        ScrapeError::FieldMissing(Field::EpisodesCount)
    );
}

#[test]
fn merge_moves_entries_last_writer_wins() {
    let mut a = obj(vec![("x", Json::Number(1)), ("y", Json::Number(2))]);
    let mut b = obj(vec![("y", Json::Number(9)), ("z", Json::Bool(true))]);
    merge(&mut a, &mut b).unwrap();
    assert_eq!(
        a,
        obj(vec![("x", Json::Number(1)), ("y", Json::Number(9)), ("z", Json::Bool(true))])
    );
    assert_eq!(b, obj(vec![]));
}

#[test]
fn merge_is_recursive_on_nested_objects() {
    let mut a = obj(vec![("x", Json::Number(1)), ("y", obj(vec![("p", Json::Number(1))]))]);
    let mut b = obj(vec![("y", obj(vec![("q", Json::Number(2))])), ("z", Json::Number(3))]);
    merge(&mut a, &mut b).unwrap();
    assert_eq!(
        a,
        obj(vec![
            ("x", Json::Number(1)),
            ("y", obj(vec![("p", Json::Number(1)), ("q", Json::Number(2))])),
            ("z", Json::Number(3)),
        ])
    );
    assert_eq!(b, obj(vec![]));
}

#[test]
fn merge_scalar_over_object_last_writer_wins() {
    let mut a = obj(vec![("y", obj(vec![("p", Json::Number(1))])), ("w", Json::Number(5))]);
    let mut b = obj(vec![("y", Json::Number(7)), ("w", obj(vec![("r", Json::Null)]))]);
    merge(&mut a, &mut b).unwrap();
    assert_eq!(a, obj(vec![("y", Json::Number(7)), ("w", obj(vec![("r", Json::Null)]))]));
}

#[test]
fn merge_refuses_non_objects() {
    let mut a = Json::Null;
    let mut b = obj(vec![]);
    assert_eq!(merge(&mut a, &mut b).unwrap_err(), MergeError::FirstNotObject);
    let mut a = obj(vec![("x", Json::Number(1))]);
    let mut b = Json::Array(vec![]);
    assert_eq!(merge(&mut a, &mut b).unwrap_err(), MergeError::SecondNotObject);
    assert_eq!(a, obj(vec![("x", Json::Number(1))]));
    assert_eq!(b, Json::Array(vec![]));
}

fn detail_selectors() -> animescrape::record::DetailSelectors {
    animescrape::record::DetailSelectors {
        title: "h1.title".to_string(),
        total_episodes: "span.total".to_string(),
        available_episodes: "span.available".to_string(),
        image: "img.cover".to_string(),
    }
}

#[test]
fn anime_from_detail_page_reads_each_region() {
    let page = r#"<html><body><h1 class="title">Naruto</h1><img class="cover" src="img/n.jpg"><span class="total">220</span><span class="available">218</span></body></html>"#;
    let a = animescrape::record::anime_from_detail_page(page, "https://x/anime/1469-naruto", &detail_selectors()).unwrap();
    assert_eq!(a.name, "Naruto");
    assert_eq!(a.link, "https://x/anime/1469-naruto");
    assert_eq!(a.link_type, "episode-page");
    assert_eq!(a.total_episodes, 220);
    assert_eq!(a.available_episodes, 218);
    assert_eq!(a.image_path, "img/n.jpg");
}

#[test]
fn anime_from_detail_page_missing_region_is_no_zero() {
    let page = r#"<html><body><h1 class="title">Naruto</h1><span class="total">220</span></body></html>"#;
    let err = animescrape::record::anime_from_detail_page(page, "l", &detail_selectors()).unwrap_err();
    assert_eq!(err, ScrapeError::FieldMissing(Field::AvailableEpisodes));
    let no_title = r#"<html><body><h2>x</h2></body></html>"#;
    let err = animescrape::record::anime_from_detail_page(no_title, "l", &detail_selectors()).unwrap_err();
    assert_eq!(err, ScrapeError::FieldMissing(Field::Name));
    let bad = r#"<h1 class="title">N</h1><span class="total">many</span>"#;
    let err = animescrape::record::anime_from_detail_page(bad, "l", &detail_selectors()).unwrap_err();
    assert_eq!(err, ScrapeError::FieldInvalid(Field::TotalEpisodes));
}
