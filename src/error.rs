//! The failures that the library reports, by kind.

use vstd::prelude::*;

verus! {

/// A field of a record as the site transmits it.
#[derive(PartialEq, Eq, Structural, Clone, Copy, Debug)]
pub enum Field {
    Name,
    Link,
    LinkType,
    TotalEpisodes,
    AvailableEpisodes,
    ImagePath,
    Title,
    EpisodesCount,
    Date,
    EntryType,
    ImageUrl,
    Slug,
    Id,
}

/// Why a query, an extraction or a mapping failed.
///
/// All but `WaitTimedOut` say that the page or the response is not shaped as
/// expected, and asking again will not help.
#[derive(PartialEq, Eq, Structural, Clone, Copy, Debug)]
pub enum ScrapeError {
    /// The selector text is not a valid CSS selector.
    InvalidSelector,
    /// No element of the document matches the selector.
    NotFound,
    /// The element has no attribute of the requested name.
    AttributeMissing,
    /// The element holds no text.
    NoText,
    /// No element matched before the wait ran out.
    WaitTimedOut,
    /// The landing page carries no `csrf-token` meta tag with a value.
    CsrfTokenMissing,
    /// The browser's resource timings carry no playback token.
    TokenMissing,
    /// The search response is not an object with a `records` array.
    MalformedResponse,
    /// A value that should be an object is not one.
    NotAnObject,
    /// A required field is absent.
    FieldMissing(Field),
    /// A field is present but holds a value of the wrong shape.
    FieldInvalid(Field),
}

} // verus!
