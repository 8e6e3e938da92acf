//! Schema-validated decoding of the JSON model into the domain records.
//! Each record shape has a spec function saying exactly which values decode
//! and to what, and an executable decoder proved to match it. A missing
//! optional field, or one set to null, is the absent value, never an error.

use vstd::prelude::*;

use crate::dates::clean_date;
use crate::dates::cleaned_spec;
use crate::json::JsonValue;
use crate::json::obj_get;
use crate::json::obj_get_exec;
use crate::json::parse_json;
use crate::json::parsed_json;
use crate::records::Album;
use crate::records::AlbumDetails;
use crate::records::AlbumDetailsView;
use crate::records::AlbumView;
use crate::records::Band;
use crate::records::BandView;
use crate::records::FullAlbum;
use crate::records::FullAlbumView;
use crate::records::Song;
use crate::records::SongView;
use crate::records::album_views;
use crate::records::band_views;
use crate::records::full_album_views;
use crate::records::song_views;

verus! {

/// Why a response was rejected: the body is not JSON at all, or it is JSON
/// of the wrong shape (a required field missing or any field of a wrong
/// type).
#[derive(Clone, Copy, Debug, PartialEq, Eq, Structural)]
pub enum DecodeError {
    InvalidJson,
    BadShape,
}

/// A required string field: present with a string value, else the record is
/// rejected.
pub open spec fn req_str(f: Seq<(String, JsonValue)>, key: Seq<char>) -> Option<Seq<char>> {
    match obj_get(f, key) {
        Option::Some(JsonValue::Str(s)) => Option::Some(s@),
        _ => Option::None,
    }
}

/// An optional string field: a missing key and a null both mean absent; a
/// string is its value; anything else rejects the record.
pub open spec fn opt_str(f: Seq<(String, JsonValue)>, key: Seq<char>) -> Option<
    Option<Seq<char>>,
> {
    match obj_get(f, key) {
        Option::None => Option::Some(Option::None),
        Option::Some(JsonValue::Null) => Option::Some(Option::None),
        Option::Some(JsonValue::Str(s)) => Option::Some(Option::Some(s@)),
        Option::Some(_) => Option::None,
    }
}

pub open spec fn decode_album_spec(v: JsonValue) -> Option<AlbumView> {
    match v {
        JsonValue::Obj(fields) => {
            let f = fields@;
            if req_str(f, "id"@) is Some && req_str(f, "name"@) is Some && req_str(f, "link"@)
                is Some && opt_str(f, "type"@) is Some && opt_str(f, "year"@) is Some {
                Option::Some(
                    AlbumView {
                        id: req_str(f, "id"@)->Some_0,
                        name: req_str(f, "name"@)->Some_0,
                        type_: opt_str(f, "type"@)->Some_0,
                        year: opt_str(f, "year"@)->Some_0,
                        link: req_str(f, "link"@)->Some_0,
                    },
                )
            } else {
                Option::None
            }
        },
        _ => Option::None,
    }
}

pub open spec fn album_seq_spec(items: Seq<JsonValue>) -> Option<Seq<AlbumView>> {
    if forall|k: int| 0 <= k < items.len() ==> #[trigger] decode_album_spec(items[k]) is Some {
        Option::Some(Seq::new(items.len(), |k: int| decode_album_spec(items[k])->Some_0))
    } else {
        Option::None
    }
}

/// The albums field of a band: absent, null, or an array in which every
/// element decodes as an album.
pub open spec fn opt_albums(f: Seq<(String, JsonValue)>) -> Option<Option<Seq<AlbumView>>> {
    match obj_get(f, "albums"@) {
        Option::None => Option::Some(Option::None),
        Option::Some(JsonValue::Null) => Option::Some(Option::None),
        Option::Some(JsonValue::Arr(items)) => match album_seq_spec(items@) {
            Option::Some(l) => Option::Some(Option::Some(l)),
            Option::None => Option::None,
        },
        Option::Some(_) => Option::None,
    }
}

pub open spec fn decode_band_spec(v: JsonValue) -> Option<BandView> {
    match v {
        JsonValue::Obj(fields) => {
            let f = fields@;
            if req_str(f, "id"@) is Some && req_str(f, "name"@) is Some && req_str(f, "country"@)
                is Some && req_str(f, "genre"@) is Some && opt_str(f, "location"@) is Some
                && opt_str(f, "formedIn"@) is Some && opt_str(f, "yearsActive"@) is Some && opt_str(
                f,
                "themes"@,
            ) is Some && opt_str(f, "label"@) is Some && opt_str(f, "bandCover"@) is Some
                && opt_albums(f) is Some {
                Option::Some(
                    BandView {
                        id: req_str(f, "id"@)->Some_0,
                        name: req_str(f, "name"@)->Some_0,
                        country: req_str(f, "country"@)->Some_0,
                        location: opt_str(f, "location"@)->Some_0,
                        formedIn: opt_str(f, "formedIn"@)->Some_0,
                        yearsActive: opt_str(f, "yearsActive"@)->Some_0,
                        genre: req_str(f, "genre"@)->Some_0,
                        themes: opt_str(f, "themes"@)->Some_0,
                        label: opt_str(f, "label"@)->Some_0,
                        bandCover: opt_str(f, "bandCover"@)->Some_0,
                        albums: opt_albums(f)->Some_0,
                    },
                )
            } else {
                Option::None
            }
        },
        _ => Option::None,
    }
}

/// The band field of a search-result album: absent, null, or a value that
/// decodes as a band.
pub open spec fn opt_band(f: Seq<(String, JsonValue)>) -> Option<Option<BandView>> {
    match obj_get(f, "band"@) {
        Option::None => Option::Some(Option::None),
        Option::Some(JsonValue::Null) => Option::Some(Option::None),
        Option::Some(v) => match decode_band_spec(v) {
            Option::Some(b) => Option::Some(Option::Some(b)),
            Option::None => Option::None,
        },
    }
}

/// A search-result album; its date field, when present, is stored after the
/// date-cleaning transform.
pub open spec fn decode_full_album_spec(v: JsonValue) -> Option<FullAlbumView> {
    match v {
        JsonValue::Obj(fields) => {
            let f = fields@;
            if req_str(f, "id"@) is Some && req_str(f, "title"@) is Some && req_str(f, "link"@)
                is Some && opt_str(f, "type"@) is Some && opt_str(f, "date"@) is Some && opt_band(f)
                is Some {
                Option::Some(
                    FullAlbumView {
                        id: req_str(f, "id"@)->Some_0,
                        title: req_str(f, "title"@)->Some_0,
                        band: opt_band(f)->Some_0,
                        type_: opt_str(f, "type"@)->Some_0,
                        date: match opt_str(f, "date"@)->Some_0 {
                            Option::Some(d) => Option::Some(cleaned_spec(d)),
                            Option::None => Option::None,
                        },
                        link: req_str(f, "link"@)->Some_0,
                    },
                )
            } else {
                Option::None
            }
        },
        _ => Option::None,
    }
}

pub open spec fn decode_song_spec(v: JsonValue) -> Option<SongView> {
    match v {
        JsonValue::Obj(fields) => {
            let f = fields@;
            if req_str(f, "id"@) is Some && req_str(f, "number"@) is Some && req_str(f, "name"@)
                is Some && req_str(f, "length"@) is Some && req_str(f, "lyrics"@) is Some {
                Option::Some(
                    SongView {
                        id: req_str(f, "id"@)->Some_0,
                        number: req_str(f, "number"@)->Some_0,
                        name: req_str(f, "name"@)->Some_0,
                        length: req_str(f, "length"@)->Some_0,
                        lyrics: req_str(f, "lyrics"@)->Some_0,
                    },
                )
            } else {
                Option::None
            }
        },
        _ => Option::None,
    }
}

pub open spec fn song_seq_spec(items: Seq<JsonValue>) -> Option<Seq<SongView>> {
    if forall|k: int| 0 <= k < items.len() ==> #[trigger] decode_song_spec(items[k]) is Some {
        Option::Some(Seq::new(items.len(), |k: int| decode_song_spec(items[k])->Some_0))
    } else {
        Option::None
    }
}

pub open spec fn opt_songs(f: Seq<(String, JsonValue)>) -> Option<Option<Seq<SongView>>> {
    match obj_get(f, "songs"@) {
        Option::None => Option::Some(Option::None),
        Option::Some(JsonValue::Null) => Option::Some(Option::None),
        Option::Some(JsonValue::Arr(items)) => match song_seq_spec(items@) {
            Option::Some(l) => Option::Some(Option::Some(l)),
            Option::None => Option::None,
        },
        Option::Some(_) => Option::None,
    }
}

pub open spec fn decode_album_details_spec(v: JsonValue) -> Option<AlbumDetailsView> {
    match v {
        JsonValue::Obj(fields) => {
            let f = fields@;
            if req_str(f, "id"@) is Some && req_str(f, "name"@) is Some && req_str(f, "type"@)
                is Some && req_str(f, "releaseDate"@) is Some && req_str(f, "catalogID"@) is Some
                && req_str(f, "versionDescription"@) is Some && opt_str(f, "label"@) is Some
                && opt_str(f, "format"@) is Some && req_str(f, "limitations"@) is Some && req_str(
                f,
                "reviews"@,
            ) is Some && req_str(f, "coverUrl"@) is Some && opt_songs(f) is Some {
                Option::Some(
                    AlbumDetailsView {
                        id: req_str(f, "id"@)->Some_0,
                        name: req_str(f, "name"@)->Some_0,
                        album_type: req_str(f, "type"@)->Some_0,
                        releaseDate: req_str(f, "releaseDate"@)->Some_0,
                        catalogID: req_str(f, "catalogID"@)->Some_0,
                        versionDescription: req_str(f, "versionDescription"@)->Some_0,
                        label: opt_str(f, "label"@)->Some_0,
                        albumFormat: opt_str(f, "format"@)->Some_0,
                        limitations: req_str(f, "limitations"@)->Some_0,
                        reviews: req_str(f, "reviews"@)->Some_0,
                        coverUrl: req_str(f, "coverUrl"@)->Some_0,
                        songs: opt_songs(f)->Some_0,
                    },
                )
            } else {
                Option::None
            }
        },
        _ => Option::None,
    }
}

fn req_str_exec(fields: &Vec<(String, JsonValue)>, key: &str) -> (r: Option<String>)
    ensures
        r matches Some(s) ==> req_str(fields@, key@) == Option::Some(s@),
        r is None ==> req_str(fields@, key@) is None,
{
    match obj_get_exec(fields, key) {
        Option::Some(v) => match v {
            JsonValue::Str(s) => Option::Some(s.clone()),
            _ => Option::None,
        },
        Option::None => Option::None,
    }
}

fn opt_str_exec(fields: &Vec<(String, JsonValue)>, key: &str) -> (r: Option<Option<String>>)
    ensures
        r matches Some(o) ==> opt_str(fields@, key@) == Option::Some(o.deep_view()),
        r is None ==> opt_str(fields@, key@) is None,
{
    match obj_get_exec(fields, key) {
        Option::Some(v) => match v {
            JsonValue::Null => Option::Some(Option::None),
            JsonValue::Str(s) => Option::Some(Option::Some(s.clone())),
            _ => Option::None,
        },
        Option::None => Option::Some(Option::None),
    }
}

pub fn decode_album(v: &JsonValue) -> (r: Result<Album, DecodeError>)
    ensures
        (r is Ok) == (decode_album_spec(*v) is Some),
        r matches Ok(a) ==> Option::Some(a@) == decode_album_spec(*v),
        r matches Err(e) ==> e == DecodeError::BadShape,
{
    match v {
        JsonValue::Obj(fields) => {
            let id = match req_str_exec(fields, "id") {
                Option::Some(s) => s,
                Option::None => { return Result::Err(DecodeError::BadShape) },
            };
            let name = match req_str_exec(fields, "name") {
                Option::Some(s) => s,
                Option::None => { return Result::Err(DecodeError::BadShape) },
            };
            let link = match req_str_exec(fields, "link") {
                Option::Some(s) => s,
                Option::None => { return Result::Err(DecodeError::BadShape) },
            };
            let type_ = match opt_str_exec(fields, "type") {
                Option::Some(o) => o,
                Option::None => { return Result::Err(DecodeError::BadShape) },
            };
            let year = match opt_str_exec(fields, "year") {
                Option::Some(o) => o,
                Option::None => { return Result::Err(DecodeError::BadShape) },
            };
            Result::Ok(Album { id, name, type_, year, link })
        },
        _ => Result::Err(DecodeError::BadShape),
    }
}

pub fn decode_album_vec(items: &Vec<JsonValue>) -> (r: Result<Vec<Album>, DecodeError>)
    ensures
        (r is Ok) == (album_seq_spec(items@) is Some),
        r matches Ok(l) ==> Option::Some(album_views(l@)) == album_seq_spec(items@),
        r matches Err(e) ==> e == DecodeError::BadShape,
{
    let n = items.len();
    let mut out: Vec<Album> = Vec::new();
    let mut i: usize = 0;
    while i < n
        invariant
            i <= n,
            n == items@.len(),
            out@.len() == i,
            forall|k: int| 0 <= k < i ==> #[trigger] decode_album_spec(items@[k]) is Some,
            forall|k: int|
                0 <= k < i ==> #[trigger] out@[k]@ == decode_album_spec(items@[k])->Some_0,
        decreases n - i,
    {
        match decode_album(&items[i]) {
            Result::Ok(a) => {
                out.push(a);
            },
            Result::Err(e) => {
                proof {
                    assert(decode_album_spec(items@[i as int]) is None);
                }
                return Result::Err(e);
            },
        }
        i += 1;
    }
    proof {
        assert(album_views(out@) =~= Seq::new(
            items@.len(),
            |k: int| decode_album_spec(items@[k])->Some_0,
        ));
    }
    Result::Ok(out)
}

pub fn decode_band(v: &JsonValue) -> (r: Result<Band, DecodeError>)
    ensures
        (r is Ok) == (decode_band_spec(*v) is Some),
        r matches Ok(b) ==> Option::Some(b@) == decode_band_spec(*v),
        r matches Err(e) ==> e == DecodeError::BadShape,
{
    match v {
        JsonValue::Obj(fields) => {
            let id = match req_str_exec(fields, "id") {
                Option::Some(s) => s,
                Option::None => { return Result::Err(DecodeError::BadShape) },
            };
            let name = match req_str_exec(fields, "name") {
                Option::Some(s) => s,
                Option::None => { return Result::Err(DecodeError::BadShape) },
            };
            let country = match req_str_exec(fields, "country") {
                Option::Some(s) => s,
                Option::None => { return Result::Err(DecodeError::BadShape) },
            };
            let genre = match req_str_exec(fields, "genre") {
                Option::Some(s) => s,
                Option::None => { return Result::Err(DecodeError::BadShape) },
            };
            let location = match opt_str_exec(fields, "location") {
                Option::Some(o) => o,
                Option::None => { return Result::Err(DecodeError::BadShape) },
            };
            let formed_in = match opt_str_exec(fields, "formedIn") {
                Option::Some(o) => o,
                Option::None => { return Result::Err(DecodeError::BadShape) },
            };
            let years_active = match opt_str_exec(fields, "yearsActive") {
                Option::Some(o) => o,
                Option::None => { return Result::Err(DecodeError::BadShape) },
            };
            let themes = match opt_str_exec(fields, "themes") {
                Option::Some(o) => o,
                Option::None => { return Result::Err(DecodeError::BadShape) },
            };
            let label = match opt_str_exec(fields, "label") {
                Option::Some(o) => o,
                Option::None => { return Result::Err(DecodeError::BadShape) },
            };
            let band_cover = match opt_str_exec(fields, "bandCover") {
                Option::Some(o) => o,
                Option::None => { return Result::Err(DecodeError::BadShape) },
            };
            let albums: Option<Vec<Album>> = match obj_get_exec(fields, "albums") {
                Option::None => Option::None,
                Option::Some(av) => match av {
                    JsonValue::Null => Option::None,
                    JsonValue::Arr(items) => match decode_album_vec(items) {
                        Result::Ok(l) => Option::Some(l),
                        Result::Err(e) => { return Result::Err(e) },
                    },
                    _ => { return Result::Err(DecodeError::BadShape) },
                },
            };
            Result::Ok(
                Band {
                    id,
                    name,
                    country,
                    location,
                    formedIn: formed_in,
                    yearsActive: years_active,
                    genre,
                    themes,
                    label,
                    bandCover: band_cover,
                    albums,
                },
            )
        },
        _ => Result::Err(DecodeError::BadShape),
    }
}

pub fn decode_full_album(v: &JsonValue) -> (r: Result<FullAlbum, DecodeError>)
    ensures
        (r is Ok) == (decode_full_album_spec(*v) is Some),
        r matches Ok(a) ==> Option::Some(a@) == decode_full_album_spec(*v),
        r matches Err(e) ==> e == DecodeError::BadShape,
{
    match v {
        JsonValue::Obj(fields) => {
            let id = match req_str_exec(fields, "id") {
                Option::Some(s) => s,
                Option::None => { return Result::Err(DecodeError::BadShape) },
            };
            let title = match req_str_exec(fields, "title") {
                Option::Some(s) => s,
                Option::None => { return Result::Err(DecodeError::BadShape) },
            };
            let link = match req_str_exec(fields, "link") {
                Option::Some(s) => s,
                Option::None => { return Result::Err(DecodeError::BadShape) },
            };
            let type_ = match opt_str_exec(fields, "type") {
                Option::Some(o) => o,
                Option::None => { return Result::Err(DecodeError::BadShape) },
            };
            let raw_date = match opt_str_exec(fields, "date") {
                Option::Some(o) => o,
                Option::None => { return Result::Err(DecodeError::BadShape) },
            };
            let date = match raw_date {
                Option::Some(d) => Option::Some(clean_date(d.as_str())),
                Option::None => Option::None,
            };
            let band: Option<Band> = match obj_get_exec(fields, "band") {
                Option::None => Option::None,
                Option::Some(bv) => match bv {
                    JsonValue::Null => Option::None,
                    _ => match decode_band(bv) {
                        Result::Ok(b) => Option::Some(b),
                        Result::Err(e) => { return Result::Err(e) },
                    },
                },
            };
            Result::Ok(FullAlbum { id, title, band, type_, date, link })
        },
        _ => Result::Err(DecodeError::BadShape),
    }
}

pub fn decode_song(v: &JsonValue) -> (r: Result<Song, DecodeError>)
    ensures
        (r is Ok) == (decode_song_spec(*v) is Some),
        r matches Ok(s) ==> Option::Some(s@) == decode_song_spec(*v),
        r matches Err(e) ==> e == DecodeError::BadShape,
{
    match v {
        JsonValue::Obj(fields) => {
            let id = match req_str_exec(fields, "id") {
                Option::Some(s) => s,
                Option::None => { return Result::Err(DecodeError::BadShape) },
            };
            let number = match req_str_exec(fields, "number") {
                Option::Some(s) => s,
                Option::None => { return Result::Err(DecodeError::BadShape) },
            };
            let name = match req_str_exec(fields, "name") {
                Option::Some(s) => s,
                Option::None => { return Result::Err(DecodeError::BadShape) },
            };
            let length = match req_str_exec(fields, "length") {
                Option::Some(s) => s,
                Option::None => { return Result::Err(DecodeError::BadShape) },
            };
            let lyrics = match req_str_exec(fields, "lyrics") {
                Option::Some(s) => s,
                Option::None => { return Result::Err(DecodeError::BadShape) },
            };
            Result::Ok(Song { id, number, name, length, lyrics })
        },
        _ => Result::Err(DecodeError::BadShape),
    }
}

pub fn decode_song_vec(items: &Vec<JsonValue>) -> (r: Result<Vec<Song>, DecodeError>)
    ensures
        (r is Ok) == (song_seq_spec(items@) is Some),
        r matches Ok(l) ==> Option::Some(song_views(l@)) == song_seq_spec(items@),
        r matches Err(e) ==> e == DecodeError::BadShape,
{
    let n = items.len();
    let mut out: Vec<Song> = Vec::new();
    let mut i: usize = 0;
    while i < n
        invariant
            i <= n,
            n == items@.len(),
            out@.len() == i,
            forall|k: int| 0 <= k < i ==> #[trigger] decode_song_spec(items@[k]) is Some,
            forall|k: int|
                0 <= k < i ==> #[trigger] out@[k]@ == decode_song_spec(items@[k])->Some_0,
        decreases n - i,
    {
        match decode_song(&items[i]) {
            Result::Ok(s) => {
                out.push(s);
            },
            Result::Err(e) => {
                proof {
                    assert(decode_song_spec(items@[i as int]) is None);
                }
                return Result::Err(e);
            },
        }
        i += 1;
    }
    proof {
        assert(song_views(out@) =~= Seq::new(
            items@.len(),
            |k: int| decode_song_spec(items@[k])->Some_0,
        ));
    }
    Result::Ok(out)
}

pub fn decode_album_details(v: &JsonValue) -> (r: Result<AlbumDetails, DecodeError>)
    ensures
        (r is Ok) == (decode_album_details_spec(*v) is Some),
        r matches Ok(a) ==> Option::Some(a@) == decode_album_details_spec(*v),
        r matches Err(e) ==> e == DecodeError::BadShape,
{
    match v {
        JsonValue::Obj(fields) => {
            let id = match req_str_exec(fields, "id") {
                Option::Some(s) => s,
                Option::None => { return Result::Err(DecodeError::BadShape) },
            };
            let name = match req_str_exec(fields, "name") {
                Option::Some(s) => s,
                Option::None => { return Result::Err(DecodeError::BadShape) },
            };
            let album_type = match req_str_exec(fields, "type") {
                Option::Some(s) => s,
                Option::None => { return Result::Err(DecodeError::BadShape) },
            };
            let release_date = match req_str_exec(fields, "releaseDate") {
                Option::Some(s) => s,
                Option::None => { return Result::Err(DecodeError::BadShape) },
            };
            let catalog_id = match req_str_exec(fields, "catalogID") {
                Option::Some(s) => s,
                Option::None => { return Result::Err(DecodeError::BadShape) },
            };
            let version_description = match req_str_exec(fields, "versionDescription") {
                Option::Some(s) => s,
                Option::None => { return Result::Err(DecodeError::BadShape) },
            };
            let label = match opt_str_exec(fields, "label") {
                Option::Some(o) => o,
                Option::None => { return Result::Err(DecodeError::BadShape) },
            };
            let album_format = match opt_str_exec(fields, "format") {
                Option::Some(o) => o,
                Option::None => { return Result::Err(DecodeError::BadShape) },
            };
            let limitations = match req_str_exec(fields, "limitations") {
                Option::Some(s) => s,
                Option::None => { return Result::Err(DecodeError::BadShape) },
            };
            let reviews = match req_str_exec(fields, "reviews") {
                Option::Some(s) => s,
                Option::None => { return Result::Err(DecodeError::BadShape) },
            };
            let cover_url = match req_str_exec(fields, "coverUrl") {
                Option::Some(s) => s,
                Option::None => { return Result::Err(DecodeError::BadShape) },
            };
            let songs: Option<Vec<Song>> = match obj_get_exec(fields, "songs") {
                Option::None => Option::None,
                Option::Some(sv) => match sv {
                    JsonValue::Null => Option::None,
                    JsonValue::Arr(items) => match decode_song_vec(items) {
                        Result::Ok(l) => Option::Some(l),
                        Result::Err(e) => { return Result::Err(e) },
                    },
                    _ => { return Result::Err(DecodeError::BadShape) },
                },
            };
            Result::Ok(
                AlbumDetails {
                    id,
                    name,
                    album_type,
                    releaseDate: release_date,
                    catalogID: catalog_id,
                    versionDescription: version_description,
                    label,
                    albumFormat: album_format,
                    limitations,
                    reviews,
                    coverUrl: cover_url,
                    songs,
                },
            )
        },
        _ => Result::Err(DecodeError::BadShape),
    }
}

pub fn decode_band_vec(items: &Vec<JsonValue>) -> (r: Result<Vec<Band>, DecodeError>)
    ensures
        (r is Ok) == (band_seq_spec(items@) is Some),
        r matches Ok(l) ==> Option::Some(band_views(l@)) == band_seq_spec(items@),
        r matches Err(e) ==> e == DecodeError::BadShape,
{
    let n = items.len();
    let mut out: Vec<Band> = Vec::new();
    let mut i: usize = 0;
    while i < n
        invariant
            i <= n,
            n == items@.len(),
            out@.len() == i,
            forall|k: int| 0 <= k < i ==> #[trigger] decode_band_spec(items@[k]) is Some,
            forall|k: int|
                0 <= k < i ==> #[trigger] out@[k]@ == decode_band_spec(items@[k])->Some_0,
        decreases n - i,
    {
        match decode_band(&items[i]) {
            Result::Ok(b) => {
                out.push(b);
            },
            Result::Err(e) => {
                proof {
                    assert(decode_band_spec(items@[i as int]) is None);
                }
                return Result::Err(e);
            },
        }
        i += 1;
    }
    proof {
        assert(band_views(out@) =~= Seq::new(
            items@.len(),
            |k: int| decode_band_spec(items@[k])->Some_0,
        ));
    }
    Result::Ok(out)
}

pub open spec fn band_seq_spec(items: Seq<JsonValue>) -> Option<Seq<BandView>> {
    if forall|k: int| 0 <= k < items.len() ==> #[trigger] decode_band_spec(items[k]) is Some {
        Option::Some(Seq::new(items.len(), |k: int| decode_band_spec(items[k])->Some_0))
    } else {
        Option::None
    }
}

pub open spec fn full_album_seq_spec(items: Seq<JsonValue>) -> Option<Seq<FullAlbumView>> {
    if forall|k: int| 0 <= k < items.len() ==> #[trigger] decode_full_album_spec(items[k])
        is Some {
        Option::Some(Seq::new(items.len(), |k: int| decode_full_album_spec(items[k])->Some_0))
    } else {
        Option::None
    }
}

pub fn decode_full_album_vec(items: &Vec<JsonValue>) -> (r: Result<Vec<FullAlbum>, DecodeError>)
    ensures
        (r is Ok) == (full_album_seq_spec(items@) is Some),
        r matches Ok(l) ==> Option::Some(full_album_views(l@)) == full_album_seq_spec(items@),
        r matches Err(e) ==> e == DecodeError::BadShape,
{
    let n = items.len();
    let mut out: Vec<FullAlbum> = Vec::new();
    let mut i: usize = 0;
    while i < n
        invariant
            i <= n,
            n == items@.len(),
            out@.len() == i,
            forall|k: int| 0 <= k < i ==> #[trigger] decode_full_album_spec(items@[k]) is Some,
            forall|k: int|
                0 <= k < i ==> #[trigger] out@[k]@ == decode_full_album_spec(items@[k])->Some_0,
        decreases n - i,
    {
        match decode_full_album(&items[i]) {
            Result::Ok(a) => {
                out.push(a);
            },
            Result::Err(e) => {
                proof {
                    assert(decode_full_album_spec(items@[i as int]) is None);
                }
                return Result::Err(e);
            },
        }
        i += 1;
    }
    proof {
        assert(full_album_views(out@) =~= Seq::new(
            items@.len(),
            |k: int| decode_full_album_spec(items@[k])->Some_0,
        ));
    }
    Result::Ok(out)
}

/// What decoding a band-search response body yields, from the text alone.
pub open spec fn band_search_spec(s: Seq<char>) -> Result<Seq<BandView>, DecodeError> {
    match parsed_json(s) {
        Option::None => Result::Err(DecodeError::InvalidJson),
        Option::Some(JsonValue::Arr(items)) => match band_seq_spec(items@) {
            Option::Some(l) => Result::Ok(l),
            Option::None => Result::Err(DecodeError::BadShape),
        },
        Option::Some(_) => Result::Err(DecodeError::BadShape),
    }
}

pub open spec fn album_search_spec(s: Seq<char>) -> Result<Seq<FullAlbumView>, DecodeError> {
    match parsed_json(s) {
        Option::None => Result::Err(DecodeError::InvalidJson),
        Option::Some(JsonValue::Arr(items)) => match full_album_seq_spec(items@) {
            Option::Some(l) => Result::Ok(l),
            Option::None => Result::Err(DecodeError::BadShape),
        },
        Option::Some(_) => Result::Err(DecodeError::BadShape),
    }
}

pub open spec fn band_detail_spec(s: Seq<char>) -> Result<BandView, DecodeError> {
    match parsed_json(s) {
        Option::None => Result::Err(DecodeError::InvalidJson),
        Option::Some(v) => match decode_band_spec(v) {
            Option::Some(b) => Result::Ok(b),
            Option::None => Result::Err(DecodeError::BadShape),
        },
    }
}

pub open spec fn album_detail_spec(s: Seq<char>) -> Result<AlbumDetailsView, DecodeError> {
    match parsed_json(s) {
        Option::None => Result::Err(DecodeError::InvalidJson),
        Option::Some(v) => match decode_album_details_spec(v) {
            Option::Some(a) => Result::Ok(a),
            Option::None => Result::Err(DecodeError::BadShape),
        },
    }
}

/// Decodes the body of a search-by-band-name or search-by-genre response:
/// an array of bands.
pub fn parse_band_search_response(body: &str) -> (r: Result<Vec<Band>, DecodeError>)
    ensures
        (r is Ok) == (band_search_spec(body@) is Ok),
        r matches Ok(l) ==> Result::<Seq<BandView>, DecodeError>::Ok(band_views(l@)) == band_search_spec(body@),
        r matches Err(e) ==> Result::<Seq<BandView>, DecodeError>::Err(e) == band_search_spec(
            body@,
        ),
{
    match parse_json(body) {
        Option::None => Result::Err(DecodeError::InvalidJson),
        Option::Some(v) => match &v {
            JsonValue::Arr(items) => decode_band_vec(items),
            _ => Result::Err(DecodeError::BadShape),
        },
    }
}

/// Decodes the body of a search-by-album-title response: an array of albums.
pub fn parse_album_search_response(body: &str) -> (r: Result<Vec<FullAlbum>, DecodeError>)
    ensures
        (r is Ok) == (album_search_spec(body@) is Ok),
        r matches Ok(l) ==> Result::<Seq<FullAlbumView>, DecodeError>::Ok(full_album_views(l@)) == album_search_spec(body@),
        r matches Err(e) ==> Result::<Seq<FullAlbumView>, DecodeError>::Err(e) == album_search_spec(
            body@,
        ),
{
    match parse_json(body) {
        Option::None => Result::Err(DecodeError::InvalidJson),
        Option::Some(v) => match &v {
            JsonValue::Arr(items) => decode_full_album_vec(items),
            _ => Result::Err(DecodeError::BadShape),
        },
    }
}

/// Decodes the body of a band-detail response: a single band.
pub fn parse_band_detail_response(body: &str) -> (r: Result<Band, DecodeError>)
    ensures
        (r is Ok) == (band_detail_spec(body@) is Ok),
        r matches Ok(b) ==> Result::<BandView, DecodeError>::Ok(b@) == band_detail_spec(body@),
        r matches Err(e) ==> Result::<BandView, DecodeError>::Err(e) == band_detail_spec(body@),
{
    match parse_json(body) {
        Option::None => Result::Err(DecodeError::InvalidJson),
        Option::Some(v) => decode_band(&v),
    }
}

/// Decodes the body of an album-detail response: a single full album record.
pub fn parse_album_detail_response(body: &str) -> (r: Result<AlbumDetails, DecodeError>)
    ensures
        (r is Ok) == (album_detail_spec(body@) is Ok),
        r matches Ok(a) ==> Result::<AlbumDetailsView, DecodeError>::Ok(a@) == album_detail_spec(body@),
        r matches Err(e) ==> Result::<AlbumDetailsView, DecodeError>::Err(e) == album_detail_spec(
            body@,
        ),
{
    match parse_json(body) {
        Option::None => Result::Err(DecodeError::InvalidJson),
        Option::Some(v) => decode_album_details(&v),
    }
}

/// A band record whose required fields are well-typed strings never fails to
/// decode just because its optional fields are all missing; they come out
/// absent.
pub proof fn lemma_optional_absence_is_not_an_error(v: JsonValue)
    requires
        v matches JsonValue::Obj(fields) && req_str(fields@, "id"@) is Some && req_str(
            fields@,
            "name"@,
        ) is Some && req_str(fields@, "country"@) is Some && req_str(fields@, "genre"@) is Some
            && obj_get(fields@, "location"@) is None && obj_get(fields@, "formedIn"@) is None
            && obj_get(fields@, "yearsActive"@) is None && obj_get(fields@, "themes"@) is None
            && obj_get(fields@, "label"@) is None && obj_get(fields@, "bandCover"@) is None
            && obj_get(fields@, "albums"@) is None,
    ensures
        decode_band_spec(v) matches Some(b) && b.location is None && b.formedIn is None
            && b.yearsActive is None && b.themes is None && b.label is None && b.bandCover is None
            && b.albums is None && (v matches JsonValue::Obj(fields) ==> b.id == req_str(
            fields@,
            "id"@,
        )->Some_0 && b.name == req_str(fields@, "name"@)->Some_0 && b.country == req_str(
            fields@,
            "country"@,
        )->Some_0 && b.genre == req_str(fields@, "genre"@)->Some_0),
{
}

} // verus!
