//! The domain records: bands, albums, songs, and the tagged union of the two
//! search-result kinds. Each record has a spec-level view holding its fields
//! as mathematical values; contracts speak of those views.

use vstd::prelude::*;

verus! {

/// A band, as a search endpoint or the band-detail endpoint returns it.
/// Every field beyond the four required ones may be absent.
#[allow(non_snake_case)]
#[derive(Debug)]
pub struct Band {
    pub id: String,
    pub name: String,
    pub country: String,
    pub location: Option<String>,
    pub formedIn: Option<String>,
    pub yearsActive: Option<String>,
    pub genre: String,
    pub themes: Option<String>,
    pub label: Option<String>,
    pub bandCover: Option<String>,
    pub albums: Option<Vec<Album>>,
}

/// An album summary, embedded in a band's album list.
#[allow(non_snake_case)]
#[derive(Debug)]
pub struct Album {
    pub id: String,
    pub name: String,
    pub type_: Option<String>,
    pub year: Option<String>,
    pub link: String,
}

/// An album as the search-by-title endpoint returns it; its date field is
/// stored already cleaned.
#[allow(non_snake_case)]
#[derive(Debug)]
pub struct FullAlbum {
    pub id: String,
    pub title: String,
    pub band: Option<Band>,
    pub type_: Option<String>,
    pub date: Option<String>,
    pub link: String,
}

/// The full album record the album-detail endpoint returns.
#[allow(non_snake_case)]
#[derive(Debug)]
pub struct AlbumDetails {
    pub id: String,
    pub name: String,
    pub album_type: String,
    pub releaseDate: String,
    pub catalogID: String,
    pub versionDescription: String,
    pub label: Option<String>,
    pub albumFormat: Option<String>,
    pub limitations: String,
    pub reviews: String,
    pub coverUrl: String,
    pub songs: Option<Vec<Song>>,
}

/// A song, embedded in an album-detail record.
#[derive(Debug)]
pub struct Song {
    pub id: String,
    pub number: String,
    pub name: String,
    pub length: String,
    pub lyrics: String,
}

/// What one search produced: a list of bands or a list of albums.
#[derive(Debug)]
pub enum SearchResult {
    Band(Vec<Band>),
    Album(Vec<FullAlbum>),
}

/// The views of a sequence of records, element by element.
pub open spec fn album_views(v: Seq<Album>) -> Seq<AlbumView> {
    v.map(|i: int, a: Album| a@)
}

pub open spec fn band_views(v: Seq<Band>) -> Seq<BandView> {
    v.map(|i: int, b: Band| b@)
}

pub open spec fn full_album_views(v: Seq<FullAlbum>) -> Seq<FullAlbumView> {
    v.map(|i: int, a: FullAlbum| a@)
}

pub open spec fn song_views(v: Seq<Song>) -> Seq<SongView> {
    v.map(|i: int, s: Song| s@)
}

#[verifier::ext_equal]
pub ghost struct AlbumView {
    pub id: Seq<char>,
    pub name: Seq<char>,
    pub type_: Option<Seq<char>>,
    pub year: Option<Seq<char>>,
    pub link: Seq<char>,
}

#[verifier::ext_equal]
pub ghost struct BandView {
    pub id: Seq<char>,
    pub name: Seq<char>,
    pub country: Seq<char>,
    pub location: Option<Seq<char>>,
    pub formedIn: Option<Seq<char>>,
    pub yearsActive: Option<Seq<char>>,
    pub genre: Seq<char>,
    pub themes: Option<Seq<char>>,
    pub label: Option<Seq<char>>,
    pub bandCover: Option<Seq<char>>,
    pub albums: Option<Seq<AlbumView>>,
}

#[verifier::ext_equal]
pub ghost struct FullAlbumView {
    pub id: Seq<char>,
    pub title: Seq<char>,
    pub band: Option<BandView>,
    pub type_: Option<Seq<char>>,
    pub date: Option<Seq<char>>,
    pub link: Seq<char>,
}

#[verifier::ext_equal]
pub ghost struct SongView {
    pub id: Seq<char>,
    pub number: Seq<char>,
    pub name: Seq<char>,
    pub length: Seq<char>,
    pub lyrics: Seq<char>,
}

#[verifier::ext_equal]
pub ghost struct AlbumDetailsView {
    pub id: Seq<char>,
    pub name: Seq<char>,
    pub album_type: Seq<char>,
    pub releaseDate: Seq<char>,
    pub catalogID: Seq<char>,
    pub versionDescription: Seq<char>,
    pub label: Option<Seq<char>>,
    pub albumFormat: Option<Seq<char>>,
    pub limitations: Seq<char>,
    pub reviews: Seq<char>,
    pub coverUrl: Seq<char>,
    pub songs: Option<Seq<SongView>>,
}

impl View for Album {
    type V = AlbumView;

    open spec fn view(&self) -> AlbumView {
        AlbumView {
            id: self.id@,
            name: self.name@,
            type_: self.type_.deep_view(),
            year: self.year.deep_view(),
            link: self.link@,
        }
    }
}

impl View for Band {
    type V = BandView;

    open spec fn view(&self) -> BandView {
        BandView {
            id: self.id@,
            name: self.name@,
            country: self.country@,
            location: self.location.deep_view(),
            formedIn: self.formedIn.deep_view(),
            yearsActive: self.yearsActive.deep_view(),
            genre: self.genre@,
            themes: self.themes.deep_view(),
            label: self.label.deep_view(),
            bandCover: self.bandCover.deep_view(),
            albums: match self.albums {
                Option::Some(v) => Option::Some(album_views(v@)),
                Option::None => Option::None,
            },
        }
    }
}

impl View for FullAlbum {
    type V = FullAlbumView;

    open spec fn view(&self) -> FullAlbumView {
        FullAlbumView {
            id: self.id@,
            title: self.title@,
            band: match self.band {
                Option::Some(b) => Option::Some(b@),
                Option::None => Option::None,
            },
            type_: self.type_.deep_view(),
            date: self.date.deep_view(),
            link: self.link@,
        }
    }
}

impl View for Song {
    type V = SongView;

    open spec fn view(&self) -> SongView {
        SongView {
            id: self.id@,
            number: self.number@,
            name: self.name@,
            length: self.length@,
            lyrics: self.lyrics@,
        }
    }
}

impl View for AlbumDetails {
    type V = AlbumDetailsView;

    open spec fn view(&self) -> AlbumDetailsView {
        AlbumDetailsView {
            id: self.id@,
            name: self.name@,
            album_type: self.album_type@,
            releaseDate: self.releaseDate@,
            catalogID: self.catalogID@,
            versionDescription: self.versionDescription@,
            label: self.label.deep_view(),
            albumFormat: self.albumFormat.deep_view(),
            limitations: self.limitations@,
            reviews: self.reviews@,
            coverUrl: self.coverUrl@,
            songs: match self.songs {
                Option::Some(v) => Option::Some(song_views(v@)),
                Option::None => Option::None,
            },
        }
    }
}

} // verus!
