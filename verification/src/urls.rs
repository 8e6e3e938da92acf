//! The request URLs: each endpoint's URL is the fixed template with the
//! query or identifier inserted verbatim at the end.

use vstd::prelude::*;

verus! {

pub open spec fn band_name_search_url_spec(q: Seq<char>) -> Seq<char> {
    "https://metal-api.dev/search/bands/name/"@ + q
}

pub open spec fn genre_search_url_spec(q: Seq<char>) -> Seq<char> {
    "https://metal-api.dev/search/bands/genre/"@ + q
}

pub open spec fn album_title_search_url_spec(q: Seq<char>) -> Seq<char> {
    "https://metal-api.dev/search/albums/title/"@ + q
}

pub open spec fn band_details_url_spec(id: Seq<char>) -> Seq<char> {
    "https://metal-api.dev/bands/"@ + id
}

pub open spec fn album_details_url_spec(id: Seq<char>) -> Seq<char> {
    "https://metal-api.dev/albums/"@ + id
}

/// The URL that searches bands by name.
pub fn band_name_search_url(query: &str) -> (r: String)
    ensures
        r@ == band_name_search_url_spec(query@),
{
    let mut r = "https://metal-api.dev/search/bands/name/".to_owned();
    r.append(query);
    r
}

/// The URL that searches bands by genre.
pub fn genre_search_url(query: &str) -> (r: String)
    ensures
        r@ == genre_search_url_spec(query@),
{
    let mut r = "https://metal-api.dev/search/bands/genre/".to_owned();
    r.append(query);
    r
}

/// The URL that searches albums by title.
pub fn album_title_search_url(query: &str) -> (r: String)
    ensures
        r@ == album_title_search_url_spec(query@),
{
    let mut r = "https://metal-api.dev/search/albums/title/".to_owned();
    r.append(query);
    r
}

/// The URL of one band's detail record.
pub fn band_details_url(band_id: &str) -> (r: String)
    ensures
        r@ == band_details_url_spec(band_id@),
{
    let mut r = "https://metal-api.dev/bands/".to_owned();
    r.append(band_id);
    r
}

/// The URL of one album's detail record.
pub fn album_details_url(album_id: &str) -> (r: String)
    ensures
        r@ == album_details_url_spec(album_id@),
{
    let mut r = "https://metal-api.dev/albums/".to_owned();
    r.append(album_id);
    r
}

} // verus!
