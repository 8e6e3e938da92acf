//! Rendering: the numbered result list and the detail screens, each line
//! specified exactly. An absent optional field yields no line; a present
//! one yields exactly one labeled line.

use vstd::prelude::*;

use crate::numbers::dec_str;
use crate::numbers::usize_to_string;
use crate::records::Album;
use crate::records::AlbumDetails;
use crate::records::AlbumDetailsView;
use crate::records::AlbumView;
use crate::records::Band;
use crate::records::BandView;
use crate::records::FullAlbum;
use crate::records::FullAlbumView;
use crate::records::SearchResult;
use crate::records::Song;
use crate::records::SongView;
use crate::text::starts_with;

verus! {

/// An optional field shown as its value, or as "N/A" when absent.
pub open spec fn na_or(o: Option<Seq<char>>) -> Seq<char> {
    match o {
        Option::Some(s) => s,
        Option::None => "N/A"@,
    }
}

pub open spec fn no_results_message_spec(q: Seq<char>) -> Seq<char> {
    "No results found for '"@ + q + "'"@
}

pub open spec fn results_header_spec(q: Seq<char>) -> Seq<char> {
    "Found the following results for '"@ + q + "':"@
}

pub open spec fn band_result_line_spec(i: int, b: BandView) -> Seq<char> {
    dec_str((i + 1) as nat) + ". Band: "@ + b.name + ", Genre: "@ + b.genre + ", Country: "@
        + b.country
}

pub open spec fn album_result_line_spec(i: int, a: FullAlbumView) -> Seq<char> {
    dec_str((i + 1) as nat) + ". Album: "@ + a.title + ", Type: "@ + na_or(a.type_) + ", Date: "@
        + na_or(a.date)
}

/// The whole result listing: a header, then one numbered line per result.
pub open spec fn results_lines_spec(r: SearchResult, q: Seq<char>) -> Seq<Seq<char>> {
    match r {
        SearchResult::Band(bands) => seq![results_header_spec(q)] + Seq::new(
            bands@.len(),
            |i: int| band_result_line_spec(i, bands@[i]@),
        ),
        SearchResult::Album(albums) => seq![results_header_spec(q)] + Seq::new(
            albums@.len(),
            |i: int| album_result_line_spec(i, albums@[i]@),
        ),
    }
}

pub open spec fn result_count(r: SearchResult) -> int {
    match r {
        SearchResult::Band(v) => v@.len() as int,
        SearchResult::Album(v) => v@.len() as int,
    }
}

/// What the result step shows: either the no-results message alone, or the
/// numbered listing followed by the selection prompt.
#[derive(Debug)]
pub enum ResultsScreen {
    NoMatches(String),
    Numbered(Vec<String>),
}

fn na_or_exec(o: &Option<String>) -> (r: String)
    ensures
        r@ == na_or(o.deep_view()),
{
    match o {
        Option::Some(s) => s.clone(),
        Option::None => "N/A".to_owned(),
    }
}

/// The message shown when a search matched nothing.
pub fn no_results_message(query: &str) -> (r: String)
    ensures
        r@ == no_results_message_spec(query@),
{
    let mut r = "No results found for '".to_owned();
    r.append(query);
    r.append("'");
    r
}

fn results_header(query: &str) -> (r: String)
    ensures
        r@ == results_header_spec(query@),
{
    let mut r = "Found the following results for '".to_owned();
    r.append(query);
    r.append("':");
    r
}

fn band_result_line(i: usize, b: &Band) -> (r: String)
    requires
        i < usize::MAX,
    ensures
        r@ == band_result_line_spec(i as int, b@),
{
    let mut r = usize_to_string(i + 1);
    r.append(". Band: ");
    r.append(b.name.as_str());
    r.append(", Genre: ");
    r.append(b.genre.as_str());
    r.append(", Country: ");
    r.append(b.country.as_str());
    r
}

fn album_result_line(i: usize, a: &FullAlbum) -> (r: String)
    requires
        i < usize::MAX,
    ensures
        r@ == album_result_line_spec(i as int, a@),
{
    let mut r = usize_to_string(i + 1);
    r.append(". Album: ");
    r.append(a.title.as_str());
    r.append(", Type: ");
    let t = na_or_exec(&a.type_);
    r.append(t.as_str());
    r.append(", Date: ");
    let d = na_or_exec(&a.date);
    r.append(d.as_str());
    r
}

/// Renders a search outcome: the no-results message for an empty list, and
/// the header with one numbered line per result otherwise.
pub fn render_results(results: &SearchResult, query: &str) -> (r: ResultsScreen)
    ensures
        result_count(*results) == 0 ==> (r matches ResultsScreen::NoMatches(m) && m@
            == no_results_message_spec(query@)),
        result_count(*results) != 0 ==> (r matches ResultsScreen::Numbered(lines)
            && lines.deep_view() == results_lines_spec(*results, query@)),
{
    let empty = match results {
        SearchResult::Band(bands) => bands.len() == 0,
        SearchResult::Album(albums) => albums.len() == 0,
    };
    if empty {
        return ResultsScreen::NoMatches(no_results_message(query));
    }
    let mut lines: Vec<String> = Vec::new();
    lines.push(results_header(query));
    match results {
        SearchResult::Band(bands) => {
            let n = bands.len();
            let mut i: usize = 0;
            while i < n
                invariant
                    i <= n,
                    n == bands@.len(),
                    lines@.len() == i + 1,
                    lines@[0]@ == results_header_spec(query@),
                    forall|k: int|
                        0 <= k < i ==> #[trigger] lines@[k + 1]@ == band_result_line_spec(
                            k,
                            bands@[k]@,
                        ),
                decreases n - i,
            {
                let line = band_result_line(i, &bands[i]);
                lines.push(line);
                i += 1;
            }
            proof {
                assert(lines.deep_view() =~~= results_lines_spec(*results, query@));
            }
        },
        SearchResult::Album(albums) => {
            let n = albums.len();
            let mut i: usize = 0;
            while i < n
                invariant
                    i <= n,
                    n == albums@.len(),
                    lines@.len() == i + 1,
                    lines@[0]@ == results_header_spec(query@),
                    forall|k: int|
                        0 <= k < i ==> #[trigger] lines@[k + 1]@ == album_result_line_spec(
                            k,
                            albums@[k]@,
                        ),
                decreases n - i,
            {
                let line = album_result_line(i, &albums[i]);
                lines.push(line);
                i += 1;
            }
            proof {
                assert(lines.deep_view() =~~= results_lines_spec(*results, query@));
            }
        },
    }
    ResultsScreen::Numbered(lines)
}

/// One optional field's contribution to a detail screen: one labeled line
/// when present, no line when absent.
pub open spec fn opt_line(label: Seq<char>, f: Option<Seq<char>>) -> Seq<Seq<char>> {
    match f {
        Option::Some(s) => seq![label + s],
        Option::None => Seq::empty(),
    }
}

pub open spec fn album_row_spec(a: AlbumView) -> Seq<char> {
    "Name: "@ + a.name + ", Type: "@ + na_or(a.type_) + ", Date: "@ + na_or(a.year) + ", Link: "@
        + a.link
}

pub open spec fn albums_block_spec(albums: Option<Seq<AlbumView>>) -> Seq<Seq<char>> {
    match albums {
        Option::Some(l) => seq!["\nAlbums:"@] + Seq::new(l.len(), |i: int| album_row_spec(l[i])),
        Option::None => Seq::empty(),
    }
}

/// The band detail screen, line by line: the three required fields, then
/// one line per present optional field, then the album list when present.
pub open spec fn band_detail_lines_spec(b: BandView) -> Seq<Seq<char>> {
    seq![
        "\nDetails about '"@ + b.name + "':"@,
        "Genre: "@ + b.genre,
        "Country: "@ + b.country,
    ] + opt_line("Formed in: "@, b.formedIn) + opt_line("Years Active: "@, b.yearsActive)
        + opt_line("Location: "@, b.location) + opt_line("Themes: "@, b.themes) + opt_line(
        "Label: "@,
        b.label,
    ) + albums_block_spec(b.albums)
}

pub open spec fn song_row_spec(s: SongView) -> Seq<char> {
    "\nNumber: "@ + s.number + " Name: "@ + s.name + " Lenght: "@ + s.length + " Lyrics: "@
        + s.lyrics
}

pub open spec fn songs_block_spec(songs: Option<Seq<SongView>>) -> Seq<Seq<char>> {
    match songs {
        Option::Some(l) => seq!["\nSongs:"@] + Seq::new(l.len(), |i: int| song_row_spec(l[i])),
        Option::None => Seq::empty(),
    }
}

/// The album detail screen, line by line.
pub open spec fn album_detail_lines_spec(a: AlbumDetailsView) -> Seq<Seq<char>> {
    seq![
        "\nDetails about '"@ + a.name + "':"@,
        "Album type: "@ + a.album_type,
        "Release date: "@ + a.releaseDate,
    ] + opt_line("Label: "@, a.label) + opt_line("Format: "@, a.albumFormat) + songs_block_spec(
        a.songs,
    )
}

fn album_row(a: &Album) -> (r: String)
    ensures
        r@ == album_row_spec(a@),
{
    let mut r = "Name: ".to_owned();
    r.append(a.name.as_str());
    r.append(", Type: ");
    let t = na_or_exec(&a.type_);
    r.append(t.as_str());
    r.append(", Date: ");
    let y = na_or_exec(&a.year);
    r.append(y.as_str());
    r.append(", Link: ");
    r.append(a.link.as_str());
    r
}

fn song_row(s: &Song) -> (r: String)
    ensures
        r@ == song_row_spec(s@),
{
    let mut r = "\nNumber: ".to_owned();
    r.append(s.number.as_str());
    r.append(" Name: ");
    r.append(s.name.as_str());
    r.append(" Lenght: ");
    r.append(s.length.as_str());
    r.append(" Lyrics: ");
    r.append(s.lyrics.as_str());
    r
}

fn push_labeled(lines: &mut Vec<String>, label: &str, field: &Option<String>)
    ensures
        final(lines)@.len() >= old(lines)@.len(),
        final(lines).deep_view() == old(lines).deep_view() + opt_line(label@, field.deep_view()),
{
    match field {
        Option::Some(s) => {
            let mut l = label.to_owned();
            l.append(s.as_str());
            lines.push(l);
            proof {
                assert(lines.deep_view() =~~= old(lines).deep_view() + opt_line(
                    label@,
                    field.deep_view(),
                ));
            }
        },
        Option::None => {
            proof {
                assert(lines.deep_view() =~~= old(lines).deep_view() + opt_line(
                    label@,
                    field.deep_view(),
                ));
            }
        },
    }
}

/// Renders a band's detail screen.
pub fn render_band_details(b: &Band) -> (r: Vec<String>)
    ensures
        r.deep_view() == band_detail_lines_spec(b@),
{
    let mut lines: Vec<String> = Vec::new();
    let mut head = "\nDetails about '".to_owned();
    head.append(b.name.as_str());
    head.append("':");
    lines.push(head);
    let mut genre_line = "Genre: ".to_owned();
    genre_line.append(b.genre.as_str());
    lines.push(genre_line);
    let mut country_line = "Country: ".to_owned();
    country_line.append(b.country.as_str());
    lines.push(country_line);
    let ghost base = seq![
        "\nDetails about '"@ + b@.name + "':"@,
        "Genre: "@ + b@.genre,
        "Country: "@ + b@.country,
    ];
    proof {
        assert(lines.deep_view() =~~= base);
    }
    push_labeled(&mut lines, "Formed in: ", &b.formedIn);
    push_labeled(&mut lines, "Years Active: ", &b.yearsActive);
    push_labeled(&mut lines, "Location: ", &b.location);
    push_labeled(&mut lines, "Themes: ", &b.themes);
    push_labeled(&mut lines, "Label: ", &b.label);
    let ghost mid = base + opt_line("Formed in: "@, b@.formedIn) + opt_line(
        "Years Active: "@,
        b@.yearsActive,
    ) + opt_line("Location: "@, b@.location) + opt_line("Themes: "@, b@.themes) + opt_line(
        "Label: "@,
        b@.label,
    );
    proof {
        assert(lines.deep_view() == mid);
    }
    match &b.albums {
        Option::Some(albums) => {
            lines.push("\nAlbums:".to_owned());
            let n = albums.len();
            let mut i: usize = 0;
            while i < n
                invariant
                    i <= n,
                    n == albums@.len(),
                    b@.albums matches Option::Some(al) && al == crate::records::album_views(
                        albums@,
                    ),
                    lines@.len() == mid.len() + 1 + i,
                    lines.deep_view() == mid + seq!["\nAlbums:"@] + Seq::new(
                        i as nat,
                        |k: int| album_row_spec(albums@[k]@),
                    ),
                decreases n - i,
            {
                let ghost before = lines.deep_view();
                let row = album_row(&albums[i]);
                lines.push(row);
                proof {
                    assert(lines.deep_view() =~~= before.push(album_row_spec(albums@[i as int]@)));
                    assert(lines.deep_view() =~~= mid + seq!["\nAlbums:"@] + Seq::new(
                        (i + 1) as nat,
                        |k: int| album_row_spec(albums@[k]@),
                    ));
                }
                i += 1;
            }
            proof {
                assert(lines.deep_view() =~~= band_detail_lines_spec(b@));
            }
        },
        Option::None => {
            proof {
                assert(lines.deep_view() =~~= band_detail_lines_spec(b@));
            }
        },
    }
    lines
}

/// Renders an album's detail screen.
pub fn render_album_details(a: &AlbumDetails) -> (r: Vec<String>)
    ensures
        r.deep_view() == album_detail_lines_spec(a@),
{
    let mut lines: Vec<String> = Vec::new();
    let mut head = "\nDetails about '".to_owned();
    head.append(a.name.as_str());
    head.append("':");
    lines.push(head);
    let mut type_line = "Album type: ".to_owned();
    type_line.append(a.album_type.as_str());
    lines.push(type_line);
    let mut date_line = "Release date: ".to_owned();
    date_line.append(a.releaseDate.as_str());
    lines.push(date_line);
    let ghost base = seq![
        "\nDetails about '"@ + a@.name + "':"@,
        "Album type: "@ + a@.album_type,
        "Release date: "@ + a@.releaseDate,
    ];
    proof {
        assert(lines.deep_view() =~~= base);
    }
    push_labeled(&mut lines, "Label: ", &a.label);
    push_labeled(&mut lines, "Format: ", &a.albumFormat);
    let ghost mid = base + opt_line("Label: "@, a@.label) + opt_line("Format: "@, a@.albumFormat);
    proof {
        assert(lines.deep_view() == mid);
    }
    match &a.songs {
        Option::Some(songs) => {
            lines.push("\nSongs:".to_owned());
            let n = songs.len();
            let mut i: usize = 0;
            while i < n
                invariant
                    i <= n,
                    n == songs@.len(),
                    a@.songs matches Option::Some(sl) && sl == crate::records::song_views(songs@),
                    lines@.len() == mid.len() + 1 + i,
                    lines.deep_view() == mid + seq!["\nSongs:"@] + Seq::new(
                        i as nat,
                        |k: int| song_row_spec(songs@[k]@),
                    ),
                decreases n - i,
            {
                let ghost before = lines.deep_view();
                let row = song_row(&songs[i]);
                lines.push(row);
                proof {
                    assert(lines.deep_view() =~~= before.push(song_row_spec(songs@[i as int]@)));
                    assert(lines.deep_view() =~~= mid + seq!["\nSongs:"@] + Seq::new(
                        (i + 1) as nat,
                        |k: int| song_row_spec(songs@[k]@),
                    ));
                }
                i += 1;
            }
            proof {
                assert(lines.deep_view() =~~= album_detail_lines_spec(a@));
            }
        },
        Option::None => {
            proof {
                assert(lines.deep_view() =~~= album_detail_lines_spec(a@));
            }
        },
    }
    lines
}

/// The lines of a screen that start with a given label.
pub open spec fn labeled_lines(lines: Seq<Seq<char>>, p: Seq<char>) -> Seq<Seq<char>> {
    lines.filter(|l: Seq<char>| starts_with(l, p))
}

proof fn lemma_filter_all_false(s: Seq<Seq<char>>, pred: spec_fn(Seq<char>) -> bool)
    requires
        forall|i: int| 0 <= i < s.len() ==> !pred(#[trigger] s[i]),
    ensures
        s.filter(pred) == Seq::<Seq<char>>::empty(),
    decreases s.len(),
{
    reveal(Seq::filter);
    if s.len() > 0 {
        assert(forall|i: int| 0 <= i < s.len() - 1 ==> s.drop_last()[i] == s[i]);
        lemma_filter_all_false(s.drop_last(), pred);
    }
}

proof fn lemma_filter_singleton_true(x: Seq<char>, pred: spec_fn(Seq<char>) -> bool)
    requires
        pred(x),
    ensures
        seq![x].filter(pred) == seq![x],
{
    reveal(Seq::filter);
    assert(seq![x].drop_last() =~= Seq::<Seq<char>>::empty());
    assert(seq![x].last() == x);
    assert(Seq::<Seq<char>>::empty().filter(pred).push(x) =~= seq![x]);
}

/// `p` is no prefix of `l` when they already differ at index `j`.
proof fn lemma_not_prefix(l: Seq<char>, p: Seq<char>, j: int)
    requires
        0 <= j < p.len(),
        j < l.len() ==> l[j] != p[j],
    ensures
        !starts_with(l, p),
{
    if p.len() <= l.len() {
        if starts_with(l, p) {
            assert(l.take(p.len() as int)[j] == l[j]);
        }
    }
}

/// Filtering an optional field's block by its own label keeps the block.
proof fn lemma_opt_line_filter_hit(label: Seq<char>, f: Option<Seq<char>>)
    ensures
        labeled_lines(opt_line(label, f), label) == opt_line(label, f),
{
    reveal(Seq::filter);
    match f {
        Option::Some(v) => {
            assert((label + v).take(label.len() as int) =~= label);
            assert(starts_with(label + v, label));
            lemma_filter_singleton_true(label + v, |l: Seq<char>| starts_with(l, label));
        },
        Option::None => {
        },
    }
}

/// Filtering an optional field's block by another label, one that differs
/// at index `j` inside the block's own label, leaves nothing.
proof fn lemma_opt_line_filter_miss(label: Seq<char>, f: Option<Seq<char>>, p: Seq<char>, j: int)
    requires
        0 <= j < p.len(),
        0 <= j < label.len(),
        label[j] != p[j],
    ensures
        labeled_lines(opt_line(label, f), p) == Seq::<Seq<char>>::empty(),
{
    reveal(Seq::filter);
    match f {
        Option::Some(v) => {
            assert((label + v)[j] == label[j]);
            lemma_not_prefix(label + v, p, j);
            lemma_filter_all_false(opt_line(label, f), |l: Seq<char>| starts_with(l, p));
        },
        Option::None => {
        },
    }
}

proof fn lemma_band_fixed_blocks(b: BandView, p: Seq<char>)
    requires
        p.len() > 0,
        p[0] != '\n',
        p[0] != 'G',
        p[0] != 'C',
        p[0] != 'N',
    ensures
        labeled_lines(
            seq![
                "\nDetails about '"@ + b.name + "':"@,
                "Genre: "@ + b.genre,
                "Country: "@ + b.country,
            ],
            p,
        ) == Seq::<Seq<char>>::empty(),
        labeled_lines(albums_block_spec(b.albums), p) == Seq::<Seq<char>>::empty(),
{
    reveal_strlit("\nDetails about '");
    reveal_strlit("Genre: ");
    reveal_strlit("Country: ");
    reveal_strlit("\nAlbums:");
    reveal_strlit("Name: ");
    let base = seq![
        "\nDetails about '"@ + b.name + "':"@,
        "Genre: "@ + b.genre,
        "Country: "@ + b.country,
    ];
    assert(base[0][0] == '\n');
    assert(base[1][0] == 'G');
    assert(base[2][0] == 'C');
    assert forall|i: int| 0 <= i < base.len() implies !(|l: Seq<char>| starts_with(l, p))(
        #[trigger] base[i],
    ) by {
        lemma_not_prefix(base[i], p, 0);
    }
    lemma_filter_all_false(base, |l: Seq<char>| starts_with(l, p));
    match b.albums {
        Option::Some(al) => {
            let block = seq!["\nAlbums:"@] + Seq::new(al.len(), |i: int| album_row_spec(al[i]));
            assert forall|i: int| 0 <= i < block.len() implies !(|l: Seq<char>| starts_with(l, p))(
                #[trigger] block[i],
            ) by {
                if i == 0 {
                    assert(block[0][0] == '\n');
                } else {
                    assert(block[i] == album_row_spec(al[i - 1]));
                    assert(block[i][0] == 'N');
                }
                lemma_not_prefix(block[i], p, 0);
            }
            lemma_filter_all_false(block, |l: Seq<char>| starts_with(l, p));
        },
        Option::None => {
        },
    }
}

proof fn lemma_album_fixed_blocks(a: AlbumDetailsView, p: Seq<char>)
    requires
        p.len() > 0,
        p[0] != '\n',
        p[0] != 'A',
        p[0] != 'R',
    ensures
        labeled_lines(
            seq![
                "\nDetails about '"@ + a.name + "':"@,
                "Album type: "@ + a.album_type,
                "Release date: "@ + a.releaseDate,
            ],
            p,
        ) == Seq::<Seq<char>>::empty(),
        labeled_lines(songs_block_spec(a.songs), p) == Seq::<Seq<char>>::empty(),
{
    reveal_strlit("\nDetails about '");
    reveal_strlit("Album type: ");
    reveal_strlit("Release date: ");
    reveal_strlit("\nSongs:");
    reveal_strlit("\nNumber: ");
    let base = seq![
        "\nDetails about '"@ + a.name + "':"@,
        "Album type: "@ + a.album_type,
        "Release date: "@ + a.releaseDate,
    ];
    assert(base[0][0] == '\n');
    assert(base[1][0] == 'A');
    assert(base[2][0] == 'R');
    assert forall|i: int| 0 <= i < base.len() implies !(|l: Seq<char>| starts_with(l, p))(
        #[trigger] base[i],
    ) by {
        lemma_not_prefix(base[i], p, 0);
    }
    lemma_filter_all_false(base, |l: Seq<char>| starts_with(l, p));
    match a.songs {
        Option::Some(sl) => {
            let block = seq!["\nSongs:"@] + Seq::new(sl.len(), |i: int| song_row_spec(sl[i]));
            assert forall|i: int| 0 <= i < block.len() implies !(|l: Seq<char>| starts_with(l, p))(
                #[trigger] block[i],
            ) by {
                if i == 0 {
                    assert(block[0][0] == '\n');
                } else {
                    assert(block[i] == song_row_spec(sl[i - 1]));
                    assert(block[i][0] == '\n');
                }
                lemma_not_prefix(block[i], p, 0);
            }
            lemma_filter_all_false(block, |l: Seq<char>| starts_with(l, p));
        },
        Option::None => {
        },
    }
}

/// Each optional band field that is present appears in the detail screen as
/// exactly one line starting with its label, and an absent one appears not
/// at all: filtering the screen by the label leaves exactly that field's
/// block.
pub proof fn lemma_band_detail_fields_once(b: BandView)
    ensures
        labeled_lines(band_detail_lines_spec(b), "Formed in: "@) == opt_line(
            "Formed in: "@,
            b.formedIn,
        ),
        labeled_lines(band_detail_lines_spec(b), "Years Active: "@) == opt_line(
            "Years Active: "@,
            b.yearsActive,
        ),
        labeled_lines(band_detail_lines_spec(b), "Location: "@) == opt_line(
            "Location: "@,
            b.location,
        ),
        labeled_lines(band_detail_lines_spec(b), "Themes: "@) == opt_line("Themes: "@, b.themes),
        labeled_lines(band_detail_lines_spec(b), "Label: "@) == opt_line("Label: "@, b.label),
{
    broadcast use vstd::seq_lib::group_seq_lib_default;

    reveal_strlit("Formed in: ");
    reveal_strlit("Years Active: ");
    reveal_strlit("Location: ");
    reveal_strlit("Themes: ");
    reveal_strlit("Label: ");
    let fi = "Formed in: "@;
    let ya = "Years Active: "@;
    let lo = "Location: "@;
    let th = "Themes: "@;
    let la = "Label: "@;
    let base = seq![
        "\nDetails about '"@ + b.name + "':"@,
        "Genre: "@ + b.genre,
        "Country: "@ + b.country,
    ];
    let lines = band_detail_lines_spec(b);
    assert(lines == base + opt_line(fi, b.formedIn) + opt_line(ya, b.yearsActive) + opt_line(
        lo,
        b.location,
    ) + opt_line(th, b.themes) + opt_line(la, b.label) + albums_block_spec(b.albums));
    let labels = seq![fi, ya, lo, th, la];
    let fields = seq![b.formedIn, b.yearsActive, b.location, b.themes, b.label];
    assert forall|t: int| 0 <= t < 5 implies labeled_lines(lines, labels[t]) == opt_line(
        labels[t],
        fields[t],
    ) by {
        let pp = labels[t];
        lemma_band_fixed_blocks(b, pp);
        assert forall|u: int| 0 <= u < 5 && u != t implies labeled_lines(
            opt_line(labels[u], fields[u]),
            pp,
        ) == Seq::<Seq<char>>::empty() by {
            if labels[u][0] != pp[0] {
                lemma_opt_line_filter_miss(labels[u], fields[u], pp, 0);
            } else {
                lemma_opt_line_filter_miss(labels[u], fields[u], pp, 1);
            }
        }
        lemma_opt_line_filter_hit(pp, fields[t]);
        assert(labeled_lines(lines, pp) =~= opt_line(pp, fields[t]));
    }
    assert(labeled_lines(lines, fi) == opt_line(fi, b.formedIn));
    assert(labeled_lines(lines, ya) == opt_line(ya, b.yearsActive));
    assert(labeled_lines(lines, lo) == opt_line(lo, b.location));
    assert(labeled_lines(lines, th) == opt_line(th, b.themes));
    assert(labeled_lines(lines, la) == opt_line(la, b.label));
}

/// Each optional album field that is present appears in the detail screen
/// as exactly one line starting with its label, and an absent one appears
/// not at all.
pub proof fn lemma_album_detail_fields_once(a: AlbumDetailsView)
    ensures
        labeled_lines(album_detail_lines_spec(a), "Label: "@) == opt_line("Label: "@, a.label),
        labeled_lines(album_detail_lines_spec(a), "Format: "@) == opt_line(
            "Format: "@,
            a.albumFormat,
        ),
{
    broadcast use vstd::seq_lib::group_seq_lib_default;

    reveal_strlit("Label: ");
    reveal_strlit("Format: ");
    let la = "Label: "@;
    let fo = "Format: "@;
    let lines = album_detail_lines_spec(a);
    lemma_album_fixed_blocks(a, la);
    lemma_album_fixed_blocks(a, fo);
    lemma_opt_line_filter_hit(la, a.label);
    lemma_opt_line_filter_hit(fo, a.albumFormat);
    lemma_opt_line_filter_miss(fo, a.albumFormat, la, 0);
    lemma_opt_line_filter_miss(la, a.label, fo, 0);
    assert(labeled_lines(lines, la) =~= opt_line(la, a.label));
    assert(labeled_lines(lines, fo) =~= opt_line(fo, a.albumFormat));
}

} // verus!
