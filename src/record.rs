//! The records that the site yields, how they are read from the JSON tree,
//! and how a catalogue entry is written back to its stored shape.

use vstd::prelude::*;
use crate::error::{Field, ScrapeError};
use crate::json::{field_of, key_position, lemma_field_at, member, Json};
use crate::selector::{attr_value, find, find_spec, read_attribute, read_text};
use crate::text::{decimal_value, parse_decimal, text_eq};

verus! {

/// The value stored under `key` in `fields`, which must be a string.
pub open spec fn text_member(fields: Seq<(String, Json)>, key: Seq<char>, field: Field) -> Result<Seq<char>, ScrapeError> {
    match field_of(fields, key) {
        Some(Json::Str(s)) => Ok(s@),
        Some(_) => Err(ScrapeError::FieldInvalid(field)),
        None => Err(ScrapeError::FieldMissing(field)),
    }
}

/// The value stored under `key` in `fields`, which must be a number that fits
/// a `usize`.
pub open spec fn count_member(fields: Seq<(String, Json)>, key: Seq<char>, field: Field) -> Result<nat, ScrapeError> {
    match field_of(fields, key) {
        Some(Json::Number(n)) => if n <= usize::MAX {
            Ok(n as nat)
        } else {
            Err(ScrapeError::FieldInvalid(field))
        },
        Some(_) => Err(ScrapeError::FieldInvalid(field)),
        None => Err(ScrapeError::FieldMissing(field)),
    }
}

/// As [`count_member`], but a string holding an unsigned decimal numeral is
/// read as its number too.
pub open spec fn coerced_count_member(fields: Seq<(String, Json)>, key: Seq<char>, field: Field) -> Result<nat, ScrapeError> {
    match field_of(fields, key) {
        Some(Json::Str(s)) => match decimal_value(s@) {
            Some(v) => if v <= usize::MAX {
                Ok(v)
            } else {
                Err(ScrapeError::FieldInvalid(field))
            },
            None => Err(ScrapeError::FieldInvalid(field)),
        },
        _ => count_member(fields, key, field),
    }
}

/// The string stored under `key` in `fields`.
pub fn text_field(fields: &Vec<(String, Json)>, key: &str, field: Field) -> (r: Result<String, ScrapeError>)
    ensures
        r matches Ok(s) ==> text_member(fields@, key@, field) == Ok::<Seq<char>, ScrapeError>(s@),
        r matches Err(e) ==> text_member(fields@, key@, field) == Err::<Seq<char>, ScrapeError>(e),
{
    match key_position(fields, key) {
        Some(i) => match &fields[i].1 {
            Json::Str(s) => Ok(s.clone()),
            _ => Err(ScrapeError::FieldInvalid(field)),
        },
        None => Err(ScrapeError::FieldMissing(field)),
    }
}

/// The number stored under `key` in `fields`.
pub fn count_field(fields: &Vec<(String, Json)>, key: &str, field: Field) -> (r: Result<usize, ScrapeError>)
    ensures
        r matches Ok(n) ==> count_member(fields@, key@, field) == Ok::<nat, ScrapeError>(n as nat),
        r matches Err(e) ==> count_member(fields@, key@, field) == Err::<nat, ScrapeError>(e),
{
    match key_position(fields, key) {
        Some(i) => match &fields[i].1 {
            Json::Number(n) => if *n <= usize::MAX as u64 {
                Ok(*n as usize)
            } else {
                Err(ScrapeError::FieldInvalid(field))
            },
            _ => Err(ScrapeError::FieldInvalid(field)),
        },
        None => Err(ScrapeError::FieldMissing(field)),
    }
}

/// The number stored under `key` in `fields`, given either as a number or as
/// a string of digits.
pub fn coerced_count_field(fields: &Vec<(String, Json)>, key: &str, field: Field) -> (r: Result<usize, ScrapeError>)
    ensures
        r matches Ok(n) ==> coerced_count_member(fields@, key@, field) == Ok::<nat, ScrapeError>(n as nat),
        r matches Err(e) ==> coerced_count_member(fields@, key@, field) == Err::<nat, ScrapeError>(e),
{
    match key_position(fields, key) {
        Some(i) => match &fields[i].1 {
            Json::Str(s) => match parse_decimal(s.as_str()) {
                Some(v) => Ok(v),
                None => Err(ScrapeError::FieldInvalid(field)),
            },
            _ => count_field(fields, key, field),
        },
        None => Err(ScrapeError::FieldMissing(field)),
    }
}

/// An entry of the catalogue, keyed by its name.
#[derive(Clone, Debug, Default)]
pub struct Anime {
    pub name: String,
    pub link: String,
    pub link_type: String,
    pub total_episodes: usize,
    pub available_episodes: usize,
    pub image_path: String,
}

/// The view of an [`Anime`].
pub struct AnimeView {
    pub name: Seq<char>,
    pub link: Seq<char>,
    pub link_type: Seq<char>,
    pub total_episodes: nat,
    pub available_episodes: nat,
    pub image_path: Seq<char>,
}

impl View for Anime {
    type V = AnimeView;

    open spec fn view(&self) -> AnimeView {
        AnimeView {
            name: self.name@,
            link: self.link@,
            link_type: self.link_type@,
            total_episodes: self.total_episodes as nat,
            available_episodes: self.available_episodes as nat,
            image_path: self.image_path@,
        }
    }
}

/// `j` is the string `s`.
pub open spec fn is_text(j: Json, s: Seq<char>) -> bool {
    j matches Json::Str(t) && t@ == s
}

/// `j` is the number `n`.
pub open spec fn is_count(j: Json, n: nat) -> bool {
    j matches Json::Number(m) && m as nat == n
}

/// `body` holds the fields of `a` but its name, in their stored order.
pub open spec fn anime_body(body: Seq<(String, Json)>, a: AnimeView) -> bool {
    &&& body.len() == 5
    &&& body[0].0@ == "link"@ && is_text(body[0].1, a.link)
    &&& body[1].0@ == "link_type"@ && is_text(body[1].1, a.link_type)
    &&& body[2].0@ == "total_episodes"@ && is_count(body[2].1, a.total_episodes)
    &&& body[3].0@ == "available_episodes"@ && is_count(body[3].1, a.available_episodes)
    &&& body[4].0@ == "image_path"@ && is_text(body[4].1, a.image_path)
}

/// `j` is the stored shape of `a`: an object with one entry, keyed by the
/// name, whose value is an object of the other fields.
pub open spec fn anime_json(j: Json, a: AnimeView) -> bool {
    match j {
        Json::Object(top) => {
            &&& top@.len() == 1
            &&& top@[0].0@ == a.name
            &&& top@[0].1 matches Json::Object(body) && anime_body(body@, a)
        },
        _ => false,
    }
}

/// The catalogue entry named `name` whose other fields stand in `fields`.
pub open spec fn anime_fields(name: Seq<char>, fields: Seq<(String, Json)>) -> Result<AnimeView, ScrapeError> {
    match text_member(fields, "link"@, Field::Link) {
        Err(e) => Err(e),
        Ok(link) => match text_member(fields, "link_type"@, Field::LinkType) {
            Err(e) => Err(e),
            Ok(link_type) => match count_member(fields, "total_episodes"@, Field::TotalEpisodes) {
                Err(e) => Err(e),
                Ok(total_episodes) => match count_member(
                    fields,
                    "available_episodes"@,
                    Field::AvailableEpisodes,
                ) {
                    Err(e) => Err(e),
                    Ok(available_episodes) => match text_member(fields, "image_path"@, Field::ImagePath) {
                        Err(e) => Err(e),
                        Ok(image_path) => Ok(
                            AnimeView {
                                name,
                                link,
                                link_type,
                                total_episodes,
                                available_episodes,
                                image_path,
                            },
                        ),
                    },
                },
            },
        },
    }
}

/// The catalogue entry that the stored shape `j` holds. Its name is the key
/// of the last entry of the outer object.
pub open spec fn decode_anime(j: Json) -> Result<AnimeView, ScrapeError> {
    match j {
        Json::Object(top) => if top@.len() == 0 {
            Err(ScrapeError::FieldMissing(Field::Name))
        } else {
            match top@.last().1 {
                Json::Object(body) => anime_fields(top@.last().0@, body@),
                _ => Err(ScrapeError::NotAnObject),
            }
        },
        _ => Err(ScrapeError::NotAnObject),
    }
}

/// Reading and writing a catalogue entry in its stored JSON shape.
pub trait AnimeStuff: Sized {
    /// The entry that `self` stands for.
    spec fn record(&self) -> AnimeView;

    /// Reads an entry from its stored shape.
    fn from_json(json: &Json) -> (r: Result<Anime, ScrapeError>)
        ensures
            r matches Ok(a) ==> decode_anime(*json) == Ok::<AnimeView, ScrapeError>(a@),
            r matches Err(e) ==> decode_anime(*json) == Err::<AnimeView, ScrapeError>(e),
    ;

    /// Writes the entry in its stored shape.
    fn to_json(&self) -> (r: Json)
        ensures
            anime_json(r, self.record()),
    ;
}

impl AnimeStuff for Anime {
    open spec fn record(&self) -> AnimeView {
        self@
    }

    fn from_json(json: &Json) -> (r: Result<Anime, ScrapeError>) {
        let top = match json {
            Json::Object(top) => top,
            _ => {
                return Err(ScrapeError::NotAnObject);
            },
        };
        if top.len() == 0 {
            return Err(ScrapeError::FieldMissing(Field::Name));
        }
        let last: usize = top.len() - 1;
        let fields = match &top[last].1 {
            Json::Object(fields) => fields,
            _ => {
                return Err(ScrapeError::NotAnObject);
            },
        };
        let link = text_field(fields, "link", Field::Link)?;
        let link_type = text_field(fields, "link_type", Field::LinkType)?;
        let total_episodes: usize = count_field(fields, "total_episodes", Field::TotalEpisodes)?;
        let available_episodes: usize = count_field(
            fields,
            "available_episodes",
            Field::AvailableEpisodes,
        )?;
        let image_path = text_field(fields, "image_path", Field::ImagePath)?;
        Ok(
            Anime {
                name: top[last].0.clone(),
                link,
                link_type,
                total_episodes,
                available_episodes,
                image_path,
            },
        )
    }

    fn to_json(&self) -> (r: Json) {
        let mut body: Vec<(String, Json)> = Vec::new();
        body.push((String::from_str("link"), Json::Str(self.link.clone())));
        body.push((String::from_str("link_type"), Json::Str(self.link_type.clone())));
        body.push((String::from_str("total_episodes"), Json::Number(self.total_episodes as u64)));
        body.push(
            (String::from_str("available_episodes"), Json::Number(self.available_episodes as u64)),
        );
        body.push((String::from_str("image_path"), Json::Str(self.image_path.clone())));
        let mut top: Vec<(String, Json)> = Vec::new();
        top.push((self.name.clone(), Json::Object(body)));
        Json::Object(top)
    }
}

/// Reading back the stored shape of an entry gives the same entry: what
/// `to_json` writes for `a`, `from_json` reads as `a`.
pub proof fn lemma_anime_round_trip(a: Anime, j: Json)
    requires
        anime_json(j, a@),
    ensures
        decode_anime(j) == Ok::<AnimeView, ScrapeError>(a@),
{
    reveal_strlit("link");
    reveal_strlit("link_type");
    reveal_strlit("total_episodes");
    reveal_strlit("available_episodes");
    reveal_strlit("image_path");
    let top = j->Object_0@;
    let body = top[0].1->Object_0@;
    assert(top.last() == top[0]);
    // The five keys differ in length, hence in text.
    assert forall|k: int, m: int| 0 <= k < m < 5 implies body[k].0@ != body[m].0@ by {
        assert(body[k].0@.len() != body[m].0@.len());
    }
    lemma_field_at(body, "link"@, 0);
    lemma_field_at(body, "link_type"@, 1);
    lemma_field_at(body, "total_episodes"@, 2);
    lemma_field_at(body, "available_episodes"@, 3);
    lemma_field_at(body, "image_path"@, 4);
}

/// Where the fields of a catalogue entry stand on its detail page.
#[derive(Debug)]
pub struct DetailSelectors {
    /// The heading that holds the title.
    pub title: String,
    /// The region that holds the total number of episodes.
    pub total_episodes: String,
    /// The region that holds the number of episodes available so far.
    pub available_episodes: String,
    /// The cover image, whose `src` is the image path.
    pub image: String,
}

/// The text of the element that `selector` picks on the detail page `page`;
/// an absent or empty element is the field `field` missing.
pub open spec fn detail_text(page: Seq<char>, selector: Seq<char>, field: Field) -> Result<Seq<char>, ScrapeError> {
    match find_spec(page, selector) {
        Ok(e) => if e.text.len() > 0 {
            Ok(e.text)
        } else {
            Err(ScrapeError::FieldMissing(field))
        },
        Err(ScrapeError::NotFound) => Err(ScrapeError::FieldMissing(field)),
        Err(e) => Err(e),
    }
}

/// The number written in the element that `selector` picks on `page`.
pub open spec fn detail_count(page: Seq<char>, selector: Seq<char>, field: Field) -> Result<nat, ScrapeError> {
    match detail_text(page, selector, field) {
        Ok(t) => match decimal_value(t) {
            Some(v) => if v <= usize::MAX {
                Ok(v)
            } else {
                Err(ScrapeError::FieldInvalid(field))
            },
            None => Err(ScrapeError::FieldInvalid(field)),
        },
        Err(e) => Err(e),
    }
}

/// The `src` of the element that `selector` picks on `page`.
pub open spec fn detail_image(page: Seq<char>, selector: Seq<char>) -> Result<Seq<char>, ScrapeError> {
    match find_spec(page, selector) {
        Ok(e) => match attr_value(e.attrs, "src"@) {
            Some(v) => Ok(v),
            None => Err(ScrapeError::FieldMissing(Field::ImagePath)),
        },
        Err(ScrapeError::NotFound) => Err(ScrapeError::FieldMissing(Field::ImagePath)),
        Err(e) => Err(e),
    }
}

/// The catalogue entry that the detail page `page`, found at `link`, shows.
pub open spec fn detail_anime(page: Seq<char>, link: Seq<char>, s: DetailSelectors) -> Result<AnimeView, ScrapeError> {
    match detail_text(page, s.title@, Field::Name) {
        Err(e) => Err(e),
        Ok(name) => match detail_count(page, s.total_episodes@, Field::TotalEpisodes) {
            Err(e) => Err(e),
            Ok(total_episodes) => match detail_count(
                page,
                s.available_episodes@,
                Field::AvailableEpisodes,
            ) {
                Err(e) => Err(e),
                Ok(available_episodes) => match detail_image(page, s.image@) {
                    Err(e) => Err(e),
                    Ok(image_path) => Ok(
                        AnimeView {
                            name,
                            link,
                            link_type: "episode-page"@,
                            total_episodes,
                            available_episodes,
                            image_path,
                        },
                    ),
                },
            },
        },
    }
}

/// The text of the element that `selector` picks on `page`.
fn detail_text_of(page: &str, selector: &str, field: Field) -> (r: Result<String, ScrapeError>)
    ensures
        r matches Ok(t) ==> detail_text(page@, selector@, field) == Ok::<Seq<char>, ScrapeError>(t@),
        r matches Err(e) ==> detail_text(page@, selector@, field) == Err::<Seq<char>, ScrapeError>(e),
{
    match find(page, selector) {
        Ok(e) => match read_text(&e) {
            Ok(t) => Ok(t),
            Err(_) => Err(ScrapeError::FieldMissing(field)),
        },
        Err(ScrapeError::NotFound) => Err(ScrapeError::FieldMissing(field)),
        Err(e) => Err(e),
    }
}

/// The number written in the element that `selector` picks on `page`.
fn detail_count_of(page: &str, selector: &str, field: Field) -> (r: Result<usize, ScrapeError>)
    ensures
        r matches Ok(n) ==> detail_count(page@, selector@, field) == Ok::<nat, ScrapeError>(n as nat),
        r matches Err(e) ==> detail_count(page@, selector@, field) == Err::<nat, ScrapeError>(e),
{
    let t = detail_text_of(page, selector, field)?;
    match parse_decimal(t.as_str()) {
        Some(n) => Ok(n),
        None => Err(ScrapeError::FieldInvalid(field)),
    }
}

/// Reads a catalogue entry from its detail page `page`, found at `link`:
/// the title, the two episode counts and the cover image, each from the
/// region that `selectors` names. A missing region is that field missing,
/// never a default.
pub fn anime_from_detail_page(page: &str, link: &str, selectors: &DetailSelectors) -> (r: Result<Anime, ScrapeError>)
    ensures
        r matches Ok(a) ==> detail_anime(page@, link@, *selectors) == Ok::<AnimeView, ScrapeError>(a@),
        r matches Err(e) ==> detail_anime(page@, link@, *selectors) == Err::<AnimeView, ScrapeError>(e),
{
    let name = detail_text_of(page, selectors.title.as_str(), Field::Name)?;
    let total_episodes: usize = detail_count_of(
        page,
        selectors.total_episodes.as_str(),
        Field::TotalEpisodes,
    )?;
    let available_episodes: usize = detail_count_of(
        page,
        selectors.available_episodes.as_str(),
        Field::AvailableEpisodes,
    )?;
    let image_path = match find(page, selectors.image.as_str()) {
        Ok(e) => match read_attribute(&e, "src") {
            Ok(v) => v,
            Err(_) => {
                return Err(ScrapeError::FieldMissing(Field::ImagePath));
            },
        },
        Err(ScrapeError::NotFound) => {
            return Err(ScrapeError::FieldMissing(Field::ImagePath));
        },
        Err(e) => {
            return Err(e);
        },
    };
    Ok(
        Anime {
            name,
            link: String::from_str(link),
            link_type: String::from_str("episode-page"),
            total_episodes,
            available_episodes,
            image_path,
        },
    )
}

/// The kind of a search result.
#[derive(PartialEq, Eq, Structural, Clone, Copy, Debug)]
pub enum EntryType {
    TV,
    Movie,
    OVA,
}

/// The kind named by `s`, if it names one.
pub open spec fn entry_type_named(s: Seq<char>) -> Option<EntryType> {
    if s == "TV"@ {
        Some(EntryType::TV)
    } else if s == "Movie"@ {
        Some(EntryType::Movie)
    } else if s == "OVA"@ {
        Some(EntryType::OVA)
    } else {
        None
    }
}

/// A result of the site's search query.
#[derive(Clone, Debug)]
pub struct SearchEntry {
    pub title: String,
    pub episodes_count: usize,
    pub date: usize,
    pub entry_type: EntryType,
    pub image_url: String,
    pub slug: String,
    pub id: usize,
}

/// The view of a [`SearchEntry`].
pub struct SearchEntryView {
    pub title: Seq<char>,
    pub episodes_count: nat,
    pub date: nat,
    pub entry_type: EntryType,
    pub image_url: Seq<char>,
    pub slug: Seq<char>,
    pub id: nat,
}

impl View for SearchEntry {
    type V = SearchEntryView;

    open spec fn view(&self) -> SearchEntryView {
        SearchEntryView {
            title: self.title@,
            episodes_count: self.episodes_count as nat,
            date: self.date as nat,
            entry_type: self.entry_type,
            image_url: self.image_url@,
            slug: self.slug@,
            id: self.id as nat,
        }
    }
}

/// The kind stored under `type` in `fields`.
pub open spec fn entry_type_member(fields: Seq<(String, Json)>) -> Result<EntryType, ScrapeError> {
    match field_of(fields, "type"@) {
        Some(Json::Str(s)) => match entry_type_named(s@) {
            Some(t) => Ok(t),
            None => Err(ScrapeError::FieldInvalid(Field::EntryType)),
        },
        Some(_) => Err(ScrapeError::FieldInvalid(Field::EntryType)),
        None => Err(ScrapeError::FieldMissing(Field::EntryType)),
    }
}

/// The search result whose fields stand in `fields`; the first field that is
/// missing or malformed, in the order of [`SearchEntry`], is reported.
pub open spec fn entry_fields(fields: Seq<(String, Json)>) -> Result<SearchEntryView, ScrapeError> {
    match text_member(fields, "title_eng"@, Field::Title) {
        Err(e) => Err(e),
        Ok(title) => match count_member(fields, "episodes_count"@, Field::EpisodesCount) {
            Err(e) => Err(e),
            Ok(episodes_count) => match coerced_count_member(fields, "date"@, Field::Date) {
                Err(e) => Err(e),
                Ok(date) => match entry_type_member(fields) {
                    Err(e) => Err(e),
                    Ok(entry_type) => match text_member(fields, "imageurl"@, Field::ImageUrl) {
                        Err(e) => Err(e),
                        Ok(image_url) => match text_member(fields, "slug"@, Field::Slug) {
                            Err(e) => Err(e),
                            Ok(slug) => match count_member(fields, "id"@, Field::Id) {
                                Err(e) => Err(e),
                                Ok(id) => Ok(
                                    SearchEntryView {
                                        title,
                                        episodes_count,
                                        date,
                                        entry_type,
                                        image_url,
                                        slug,
                                        id,
                                    },
                                ),
                            },
                        },
                    },
                },
            },
        },
    }
}

/// The search result that `j` holds.
pub open spec fn decode_entry(j: Json) -> Result<SearchEntryView, ScrapeError> {
    match j {
        Json::Object(fields) => entry_fields(fields@),
        _ => Err(ScrapeError::NotAnObject),
    }
}

/// The search results that `items` hold, or the error of the first that
/// cannot be read.
pub open spec fn decode_entries(items: Seq<Json>) -> Result<Seq<SearchEntryView>, ScrapeError>
    decreases items.len(),
{
    if items.len() == 0 {
        Ok(Seq::empty())
    } else {
        match decode_entries(items.drop_last()) {
            Err(e) => Err(e),
            Ok(done) => match decode_entry(items.last()) {
                Err(e) => Err(e),
                Ok(x) => Ok(done.push(x)),
            },
        }
    }
}

/// The search results of a response: the array under `records`. A response
/// without such an array is malformed.
pub open spec fn decode_records(response: Json) -> Result<Seq<SearchEntryView>, ScrapeError> {
    match member(response, "records"@) {
        Some(Json::Array(items)) => decode_entries(items@),
        _ => Err(ScrapeError::MalformedResponse),
    }
}

/// The views of `entries`.
pub open spec fn entry_views(entries: Seq<SearchEntry>) -> Seq<SearchEntryView> {
    entries.map_values(|e: SearchEntry| e@)
}

/// Once a prefix of `items` fails to be read, the whole fails the same way.
proof fn lemma_decode_entries_failed_prefix(items: Seq<Json>, k: int)
    requires
        0 <= k <= items.len(),
        decode_entries(items.take(k)) is Err,
    ensures
        decode_entries(items) == decode_entries(items.take(k)),
    decreases items.len() - k,
{
    if k == items.len() {
        assert(items.take(k) =~= items);
    } else {
        let shorter = items.drop_last();
        assert(shorter.take(k) =~= items.take(k));
        lemma_decode_entries_failed_prefix(shorter, k);
    }
}

impl SearchEntry {
    /// Reads a search result from its JSON object.
    pub fn from_json(json: &Json) -> (r: Result<SearchEntry, ScrapeError>)
        ensures
            r matches Ok(e) ==> decode_entry(*json) == Ok::<SearchEntryView, ScrapeError>(e@),
            r matches Err(e) ==> decode_entry(*json) == Err::<SearchEntryView, ScrapeError>(e),
    {
        let fields = match json {
            Json::Object(fields) => fields,
            _ => {
                return Err(ScrapeError::NotAnObject);
            },
        };
        let title = text_field(fields, "title_eng", Field::Title)?;
        let episodes_count: usize = count_field(fields, "episodes_count", Field::EpisodesCount)?;
        let date: usize = coerced_count_field(fields, "date", Field::Date)?;
        let entry_type = match key_position(fields, "type") {
            Some(i) => match &fields[i].1 {
                Json::Str(s) => if text_eq(s.as_str(), "TV") {
                    EntryType::TV
                } else if text_eq(s.as_str(), "Movie") {
                    EntryType::Movie
                } else if text_eq(s.as_str(), "OVA") {
                    EntryType::OVA
                } else {
                    return Err(ScrapeError::FieldInvalid(Field::EntryType));
                },
                _ => {
                    return Err(ScrapeError::FieldInvalid(Field::EntryType));
                },
            },
            None => {
                return Err(ScrapeError::FieldMissing(Field::EntryType));
            },
        };
        let image_url = text_field(fields, "imageurl", Field::ImageUrl)?;
        let slug = text_field(fields, "slug", Field::Slug)?;
        let id: usize = count_field(fields, "id", Field::Id)?;
        Ok(SearchEntry { title, episodes_count, date, entry_type, image_url, slug, id })
    }
}

/// The search results of a response to the site's search query. A response
/// that is not an object with an array under `records` is
/// `MalformedResponse`, never an empty list.
pub fn search_entries_from_json(response: &Json) -> (r: Result<Vec<SearchEntry>, ScrapeError>)
    ensures
        r matches Ok(v) ==> decode_records(*response) == Ok::<Seq<SearchEntryView>, ScrapeError>(
            entry_views(v@),
        ),
        r matches Err(e) ==> decode_records(*response) == Err::<Seq<SearchEntryView>, ScrapeError>(
            e,
        ),
{
    let items = match response.get("records") {
        Some(Json::Array(items)) => items,
        _ => {
            return Err(ScrapeError::MalformedResponse);
        },
    };
    let mut out: Vec<SearchEntry> = Vec::new();
    let mut i: usize = 0;
    assert(items@.take(0) =~= Seq::<Json>::empty());
    assert(entry_views(out@) =~= Seq::<SearchEntryView>::empty());
    while i < items.len()
        invariant
            member(*response, "records"@) == Some(Json::Array(*items)),
            i <= items.len(),
            decode_entries(items@.take(i as int)) == Ok::<Seq<SearchEntryView>, ScrapeError>(
                entry_views(out@),
            ),
        decreases items.len() - i,
    {
        let ghost next = items@.take(i + 1);
        assert(next.drop_last() =~= items@.take(i as int));
        assert(next.last() == items@[i as int]);
        match SearchEntry::from_json(&items[i]) {
            Ok(e) => {
                let ghost before = out@;
                out.push(e);
                assert(entry_views(out@) =~= entry_views(before).push(e@));
            },
            Err(e) => {
                proof {
                    lemma_decode_entries_failed_prefix(items@, i + 1);
                }
                return Err(e);
            },
        }
        i = i + 1;
    }
    assert(items@.take(i as int) =~= items@);
    Ok(out)
}

/// A search response that holds no `records` array is malformed: it is never
/// read as an empty list of results.
pub proof fn lemma_missing_records_is_malformed(response: Json)
    requires
        !(member(response, "records"@) matches Some(Json::Array(_))),
    ensures
        decode_records(response) == Err::<Seq<SearchEntryView>, ScrapeError>(
            ScrapeError::MalformedResponse,
        ),
{
}

} // verus!
