//! The browser path: how the driver is asked for a browser, and what is read
//! from the rendered page and from the browser's resource timings.

use vstd::prelude::*;
use crate::error::ScrapeError;
use crate::selector::{attr_value, find, find_spec, read_attribute, Element, ElementView};
use crate::text::{chars_of, first_index_of, first_occurrence, is_first_occurrence, is_last_occurrence, last_index_of,
    last_occurrence};

verus! {

/// The player's control that links to the video file; it appears only once
/// the page's scripts have run.
pub const PLAYER_LINK_SELECTOR: &'static str = "a.plyr__controls__item.plyr__control";

/// What precedes the playback token in the browser's resource timings.
pub const TOKEN_MARKER: &'static str = "token=";

/// What follows the playback token in the browser's resource timings.
pub const TOKEN_END: &'static str = "&expires";

/// Where the driver listens and how it should run the browser.
#[derive(Debug)]
pub struct DriverConfig {
    /// The driver program to launch where none is running.
    pub binary_path: String,
    /// The URL of the driver's control endpoint.
    pub endpoint: String,
    /// Whether the browser runs without a window.
    pub headless: bool,
}

/// The arguments that the browser gets: `-headless` where asked for, none
/// otherwise.
pub fn browser_args(headless: bool) -> (r: Vec<String>)
    ensures
        headless ==> r@.len() == 1 && r@[0]@ == "-headless"@,
        !headless ==> r@.len() == 0,
{
    let mut r: Vec<String> = Vec::new();
    if headless {
        r.push(String::from_str("-headless"));
    }
    r
}

/// What a wait for an element does after one look at the rendered page.
#[derive(PartialEq, Eq, Structural, Clone, Copy, Debug)]
pub enum WaitStep {
    /// The element is there.
    Found,
    /// Wait one poll interval and look again.
    PollAgain,
    /// Give up with this error.
    GiveUp(ScrapeError),
}

/// The step after a look at the page that found `outcome`, where
/// `looks_done` earlier looks found nothing and `max_looks` are allowed.
pub open spec fn wait_step_spec(looks_done: u32, max_looks: u32, outcome: Result<ElementView, ScrapeError>) -> WaitStep {
    match outcome {
        Ok(_) => WaitStep::Found,
        Err(ScrapeError::NotFound) => if looks_done + 1 < max_looks {
            WaitStep::PollAgain
        } else {
            WaitStep::GiveUp(ScrapeError::WaitTimedOut)
        },
        Err(e) => WaitStep::GiveUp(e),
    }
}

/// Decides, after one look at the rendered page, whether the wait for an
/// element is over. Only an absent element is waited for; an invalid
/// selector ends the wait at once.
pub fn wait_step(looks_done: u32, max_looks: u32, outcome: &Result<Element, ScrapeError>) -> (r: WaitStep)
    ensures
        r == wait_step_spec(
            looks_done,
            max_looks,
            match outcome {
                Ok(e) => Ok(e@),
                Err(e) => Err(*e),
            },
        ),
{
    match outcome {
        Ok(_) => WaitStep::Found,
        Err(ScrapeError::NotFound) => if (looks_done as u64) + 1 < max_looks as u64 {
            WaitStep::PollAgain
        } else {
            WaitStep::GiveUp(ScrapeError::WaitTimedOut)
        },
        Err(e) => WaitStep::GiveUp(*e),
    }
}

/// The link to the video file on the rendered page `page`.
pub open spec fn download_link_spec(page: Seq<char>) -> Result<Seq<char>, ScrapeError> {
    match find_spec(page, PLAYER_LINK_SELECTOR@) {
        Ok(link) => match attr_value(link.attrs, "href"@) {
            Some(v) => Ok(v),
            None => Err(ScrapeError::AttributeMissing),
        },
        Err(e) => Err(e),
    }
}

/// The link to the video file: the `href` of the player's control on the
/// rendered page `page`.
pub fn download_link(page: &str) -> (r: Result<String, ScrapeError>)
    ensures
        r matches Ok(l) ==> download_link_spec(page@) == Ok::<Seq<char>, ScrapeError>(l@),
        r matches Err(e) ==> download_link_spec(page@) == Err::<Seq<char>, ScrapeError>(e),
{
    let link = find(page, PLAYER_LINK_SELECTOR)?;
    read_attribute(&link, "href")
}

/// The playback token in the text of the browser's resource timings: what
/// follows the last `token=` up to the first `&expires` after it, or up to
/// the end.
pub open spec fn playback_token_spec(timings: Seq<char>) -> Option<Seq<char>> {
    match last_occurrence(timings, TOKEN_MARKER@) {
        Some(i) => {
            let rest = timings.subrange(i + TOKEN_MARKER@.len(), timings.len() as int);
            match first_occurrence(rest, TOKEN_END@) {
                Some(k) => Some(rest.take(k)),
                None => Some(rest),
            }
        },
        None => None,
    }
}

/// The characters of `v` from index `from` on.
fn tail_chars(v: &Vec<char>, from: usize) -> (r: Vec<char>)
    requires
        from <= v.len(),
    ensures
        r@ == v@.subrange(from as int, v.len() as int),
{
    let mut r: Vec<char> = Vec::new();
    let mut i: usize = from;
    while i < v.len()
        invariant
            from <= i <= v.len(),
            r@ == v@.subrange(from as int, i as int),
        decreases v.len() - i,
    {
        r.push(v[i]);
        i = i + 1;
        assert(r@ =~= v@.subrange(from as int, i as int));
    }
    r
}

/// The playback token in the text of the browser's resource timings, or
/// `TokenMissing` where no `token=` occurs in it.
pub fn playback_token(timings: &str) -> (r: Result<String, ScrapeError>)
    ensures
        r matches Ok(t) ==> playback_token_spec(timings@) == Some(t@),
        r is Err ==> r == Err::<String, ScrapeError>(ScrapeError::TokenMissing)
            && playback_token_spec(timings@) is None,
{
    let cs = chars_of(timings);
    let marker = chars_of(TOKEN_MARKER);
    let at: usize = match last_index_of(&cs, &marker) {
        Some(at) => at,
        None => {
            return Err(ScrapeError::TokenMissing);
        },
    };
    assert(is_last_occurrence(cs@, marker@, at as int));
    assert(cs@.len() == cs.len() && marker@.len() == marker.len());
    let start: usize = at + marker.len();
    let rest = tail_chars(&cs, start);
    let end_marker = chars_of(TOKEN_END);
    let end: usize = match first_index_of(&rest, &end_marker) {
        Some(k) => {
            assert(is_first_occurrence(rest@, end_marker@, k as int));
            start + k
        },
        None => cs.len(),
    };
    Ok(timings.substring_char(start, end).to_owned())
}

} // verus!
