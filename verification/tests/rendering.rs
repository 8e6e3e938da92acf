use metal_search_cli::decode::parse_album_detail_response;
use metal_search_cli::decode::parse_album_search_response;
use metal_search_cli::decode::parse_band_detail_response;
use metal_search_cli::records::SearchResult;
use metal_search_cli::render::ResultsScreen;
use metal_search_cli::render::render_album_details;
use metal_search_cli::render::render_band_details;
use metal_search_cli::render::render_results;

#[test]
fn empty_results_show_the_no_results_message() {
    let result = SearchResult::Band(Vec::new());
    match render_results(&result, "X") {
        ResultsScreen::NoMatches(m) => assert_eq!(m, "No results found for 'X'"),
        ResultsScreen::Numbered(_) => panic!("an empty list must not be numbered"),
    }
    let result = SearchResult::Album(Vec::new());
    match render_results(&result, "Y") {
        ResultsScreen::NoMatches(m) => assert_eq!(m, "No results found for 'Y'"),
        ResultsScreen::Numbered(_) => panic!("an empty list must not be numbered"),
    }
}

#[test]
fn album_results_show_na_for_absent_fields() {
    let body = r#"[{"id":"7","title":"Ride","link":"l"}]"#;
    let albums = parse_album_search_response(body).unwrap();
    let result = SearchResult::Album(albums);
    match render_results(&result, "Ride") {
        ResultsScreen::Numbered(lines) => {
            assert_eq!(lines[1], "1. Album: Ride, Type: N/A, Date: N/A");
        },
        ResultsScreen::NoMatches(_) => panic!("one result must be listed"),
    }
}

#[test]
fn result_numbering_is_one_based_and_decimal() {
    let mut bodies = String::from("[");
    for i in 0..12 {
        if i > 0 {
            bodies.push(',');
        }
        bodies.push_str(&format!(
            r#"{{"id":"{i}","name":"B{i}","genre":"G","country":"C"}}"#
        ));
    }
    bodies.push(']');
    let bands = metal_search_cli::decode::parse_band_search_response(&bodies).unwrap();
    let result = SearchResult::Band(bands);
    match render_results(&result, "q") {
        ResultsScreen::Numbered(lines) => {
            assert_eq!(lines.len(), 13);
            assert_eq!(lines[12], "12. Band: B11, Genre: G, Country: C");
        },
        ResultsScreen::NoMatches(_) => panic!("twelve results must be listed"),
    }
}

#[test]
fn band_detail_prints_each_present_field_once() {
    let body = r#"{"id":"1","name":"A","genre":"Doom","country":"UK",
        "location":"Leeds","formedIn":"1988","yearsActive":"1988-2002","themes":"Loss",
        "label":"Peaceville","bandCover":"http://img",
        "albums":[{"id":"9","name":"First","type":"Full-length","year":"1990","link":"l1"}]}"#;
    let band = parse_band_detail_response(body).unwrap();
    let lines = render_band_details(&band);
    assert_eq!(lines[0], "\nDetails about 'A':");
    assert_eq!(lines[1], "Genre: Doom");
    assert_eq!(lines[2], "Country: UK");
    assert_eq!(lines[3], "Formed in: 1988");
    assert_eq!(lines[4], "Years Active: 1988-2002");
    assert_eq!(lines[5], "Location: Leeds");
    assert_eq!(lines[6], "Themes: Loss");
    assert_eq!(lines[7], "Label: Peaceville");
    assert_eq!(lines[8], "\nAlbums:");
    assert_eq!(lines[9], "Name: First, Type: Full-length, Date: 1990, Link: l1");
    assert_eq!(lines.len(), 10);
    let label_lines: Vec<_> = lines.iter().filter(|l| l.starts_with("Label: ")).collect();
    assert_eq!(label_lines.len(), 1);
    let location_lines: Vec<_> = lines.iter().filter(|l| l.starts_with("Location: ")).collect();
    assert_eq!(location_lines.len(), 1);
}

#[test]
fn album_detail_prints_songs_and_each_optional_once() {
    let body = r#"{"id":"5","name":"Ride the Lightning","type":"Full-length",
        "releaseDate":"1984","catalogID":"c1","versionDescription":"vd",
        "label":"Megaforce","format":"CD","limitations":"none","reviews":"r","coverUrl":"u",
        "songs":[{"id":"s1","number":"1","name":"Fight Fire with Fire","length":"4:45","lyrics":"..."}]}"#;
    let a = parse_album_detail_response(body).unwrap();
    let lines = render_album_details(&a);
    assert_eq!(lines[0], "\nDetails about 'Ride the Lightning':");
    assert_eq!(lines[1], "Album type: Full-length");
    assert_eq!(lines[2], "Release date: 1984");
    assert_eq!(lines[3], "Label: Megaforce");
    assert_eq!(lines[4], "Format: CD");
    assert_eq!(lines[5], "\nSongs:");
    assert_eq!(
        lines[6],
        "\nNumber: 1 Name: Fight Fire with Fire Lenght: 4:45 Lyrics: ..."
    );
    assert_eq!(lines.len(), 7);
    let label_lines: Vec<_> = lines.iter().filter(|l| l.starts_with("Label: ")).collect();
    assert_eq!(label_lines.len(), 1);
    let format_lines: Vec<_> = lines.iter().filter(|l| l.starts_with("Format: ")).collect();
    assert_eq!(format_lines.len(), 1);
}

#[test]
fn absent_album_optionals_print_no_line() {
    let body = r#"{"id":"5","name":"N","type":"EP","releaseDate":"1990","catalogID":"c",
        "versionDescription":"v","limitations":"none","reviews":"r","coverUrl":"u"}"#;
    let a = parse_album_detail_response(body).unwrap();
    let lines = render_album_details(&a);
    assert_eq!(lines.len(), 3);
    assert!(lines.iter().all(|l| !l.starts_with("Label: ")));
    assert!(lines.iter().all(|l| !l.starts_with("Format: ")));
}
