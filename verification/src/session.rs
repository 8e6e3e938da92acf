//! The decisions of the interactive session: which search mode a typed
//! choice selects, which search a mode runs, and whether a typed selection
//! picks a result. The session is linear; any invalid input ends it with a
//! message rather than an error.

use vstd::prelude::*;

use crate::dates::trim_spec;
use crate::dates::trim_str;
use crate::decode::DecodeError;
use crate::decode::album_search_spec;
use crate::decode::band_search_spec;
use crate::decode::parse_album_search_response;
use crate::decode::parse_band_search_response;
use crate::numbers::parse_usize;
use crate::numbers::parse_usize_spec;
use crate::records::SearchResult;
use crate::records::band_views;
use crate::records::full_album_views;
use crate::urls::album_title_search_url;
use crate::urls::album_title_search_url_spec;
use crate::urls::band_name_search_url;
use crate::urls::band_name_search_url_spec;
use crate::urls::genre_search_url;
use crate::urls::genre_search_url_spec;

verus! {

/// The three search modes the menu offers.
#[derive(Clone, Copy, Debug, PartialEq, Eq, Structural)]
pub enum Mode {
    BandName,
    Genre,
    AlbumTitle,
}

/// Which mode a menu choice selects: 1, 2 or 3, and nothing else.
pub open spec fn mode_of_choice(v: int) -> Option<Mode> {
    if v == 1 {
        Option::Some(Mode::BandName)
    } else if v == 2 {
        Option::Some(Mode::Genre)
    } else if v == 3 {
        Option::Some(Mode::AlbumTitle)
    } else {
        Option::None
    }
}

/// What a typed menu line selects: it is trimmed, read as a number, and
/// held to the menu's range. `None` ends the session with "Invalid choice."
pub open spec fn choose_mode_spec(s: Seq<char>) -> Option<Mode> {
    match parse_usize_spec(trim_spec(s)) {
        Option::Some(v) => mode_of_choice(v),
        Option::None => Option::None,
    }
}

/// Reads a typed menu choice. No search and no network request follows an
/// input that does not name a mode.
pub fn choose_mode(input: &str) -> (r: Option<Mode>)
    ensures
        r == choose_mode_spec(input@),
{
    let t = trim_str(input);
    match parse_usize(t.as_str()) {
        Option::Some(v) => {
            if v == 1 {
                Option::Some(Mode::BandName)
            } else if v == 2 {
                Option::Some(Mode::Genre)
            } else if v == 3 {
                Option::Some(Mode::AlbumTitle)
            } else {
                Option::None
            }
        },
        Option::None => Option::None,
    }
}

/// The label the query prompt uses for each mode.
pub fn mode_label(mode: Mode) -> (r: &'static str)
    ensures
        mode is BandName ==> r@ == "band name"@,
        mode is Genre ==> r@ == "genre"@,
        mode is AlbumTitle ==> r@ == "album title"@,
{
    match mode {
        Mode::BandName => "band name",
        Mode::Genre => "genre",
        Mode::AlbumTitle => "album title",
    }
}

/// The search URL a mode builds for a query.
pub open spec fn search_url_spec(mode: Mode, q: Seq<char>) -> Seq<char> {
    match mode {
        Mode::BandName => band_name_search_url_spec(q),
        Mode::Genre => genre_search_url_spec(q),
        Mode::AlbumTitle => album_title_search_url_spec(q),
    }
}

/// Builds the search URL of the chosen mode, the query inserted verbatim.
pub fn search_url(mode: Mode, query: &str) -> (r: String)
    ensures
        r@ == search_url_spec(mode, query@),
{
    match mode {
        Mode::BandName => band_name_search_url(query),
        Mode::Genre => genre_search_url(query),
        Mode::AlbumTitle => album_title_search_url(query),
    }
}

/// Decodes a search response body under the chosen mode, tagging the
/// result with its kind: bands for the name and genre searches, albums for
/// the title search.
pub fn parse_search_response(mode: Mode, body: &str) -> (r: Result<SearchResult, DecodeError>)
    ensures
        mode is BandName || mode is Genre ==> {
            &&& (r is Ok) == (band_search_spec(body@) is Ok)
            &&& (r matches Ok(SearchResult::Band(l)) ==> Result::<_, DecodeError>::Ok(
                band_views(l@),
            ) == band_search_spec(body@))
            &&& (r is Ok ==> r matches Ok(SearchResult::Band(_)))
            &&& (r matches Err(e) ==> Result::<Seq<crate::records::BandView>, _>::Err(e)
                == band_search_spec(body@))
        },
        mode is AlbumTitle ==> {
            &&& (r is Ok) == (album_search_spec(body@) is Ok)
            &&& (r matches Ok(SearchResult::Album(l)) ==> Result::<_, DecodeError>::Ok(
                full_album_views(l@),
            ) == album_search_spec(body@))
            &&& (r is Ok ==> r matches Ok(SearchResult::Album(_)))
            &&& (r matches Err(e) ==> Result::<Seq<crate::records::FullAlbumView>, _>::Err(e)
                == album_search_spec(body@))
        },
{
    match mode {
        Mode::BandName | Mode::Genre => match parse_band_search_response(body) {
            Result::Ok(l) => Result::Ok(SearchResult::Band(l)),
            Result::Err(e) => Result::Err(e),
        },
        Mode::AlbumTitle => match parse_album_search_response(body) {
            Result::Ok(l) => Result::Ok(SearchResult::Album(l)),
            Result::Err(e) => Result::Err(e),
        },
    }
}

/// What a typed selection picks from a list of `len` results: trimmed and
/// read as a number, it must lie in 1 ..= len; the chosen zero-based index
/// is one less. `None` ends the session with "Invalid selection."
pub open spec fn selection_index_spec(s: Seq<char>, len: int) -> Option<int> {
    match parse_usize_spec(trim_spec(s)) {
        Option::Some(k) => if 1 <= k <= len {
            Option::Some(k - 1)
        } else {
            Option::None
        },
        Option::None => Option::None,
    }
}

/// Reads a typed selection against the shown list's length. No detail
/// request follows an out-of-range or unreadable selection.
pub fn choose_selection(input: &str, len: usize) -> (r: Option<usize>)
    ensures
        r matches Some(i) ==> selection_index_spec(input@, len as int) == Option::Some(i as int)
            && i < len,
        r is None ==> selection_index_spec(input@, len as int) is None,
{
    let t = trim_str(input);
    match parse_usize(t.as_str()) {
        Option::Some(k) => {
            if 1 <= k && k <= len {
                Option::Some(k - 1)
            } else {
                Option::None
            }
        },
        Option::None => Option::None,
    }
}

} // verus!
