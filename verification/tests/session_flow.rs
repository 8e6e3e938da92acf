use metal_search_cli::records::SearchResult;
use metal_search_cli::render::ResultsScreen;
use metal_search_cli::render::render_band_details;
use metal_search_cli::render::render_results;
use metal_search_cli::session::Mode;
use metal_search_cli::session::choose_mode;
use metal_search_cli::session::choose_selection;
use metal_search_cli::session::mode_label;
use metal_search_cli::session::parse_search_response;
use metal_search_cli::session::search_url;
use metal_search_cli::urls::album_details_url;
use metal_search_cli::urls::band_details_url;

#[test]
fn menu_choices_select_the_modes() {
    assert_eq!(choose_mode("1"), Some(Mode::BandName));
    assert_eq!(choose_mode("2"), Some(Mode::Genre));
    assert_eq!(choose_mode("3"), Some(Mode::AlbumTitle));
    assert_eq!(choose_mode(" 2 \n"), Some(Mode::Genre));
}

#[test]
fn out_of_menu_choice_is_invalid() {
    assert_eq!(choose_mode("4"), None);
    assert_eq!(choose_mode("0"), None);
}

#[test]
fn unreadable_choice_is_invalid() {
    assert_eq!(choose_mode("abc"), None);
    assert_eq!(choose_mode(""), None);
    assert_eq!(choose_mode("-1"), None);
}

#[test]
fn selection_must_lie_in_the_shown_range() {
    assert_eq!(choose_selection("0", 3), None);
    assert_eq!(choose_selection("4", 3), None);
    assert_eq!(choose_selection("1", 3), Some(0));
    assert_eq!(choose_selection("3", 3), Some(2));
    assert_eq!(choose_selection(" 2 ", 3), Some(1));
    assert_eq!(choose_selection("abc", 3), None);
    assert_eq!(choose_selection("1", 0), None);
}

#[test]
fn selection_accepts_a_plus_sign_and_rejects_overflow() {
    assert_eq!(choose_selection("+2", 3), Some(1));
    assert_eq!(choose_selection("99999999999999999999999999", 3), None);
}

#[test]
fn labels_follow_the_mode() {
    assert_eq!(mode_label(Mode::BandName), "band name");
    assert_eq!(mode_label(Mode::Genre), "genre");
    assert_eq!(mode_label(Mode::AlbumTitle), "album title");
}

#[test]
fn search_urls_follow_the_templates() {
    assert_eq!(
        search_url(Mode::BandName, "Metallica"),
        "https://metal-api.dev/search/bands/name/Metallica"
    );
    assert_eq!(
        search_url(Mode::Genre, "doom"),
        "https://metal-api.dev/search/bands/genre/doom"
    );
    assert_eq!(
        search_url(Mode::AlbumTitle, "Ride"),
        "https://metal-api.dev/search/albums/title/Ride"
    );
    assert_eq!(band_details_url("123"), "https://metal-api.dev/bands/123");
    assert_eq!(album_details_url("7"), "https://metal-api.dev/albums/7");
}

#[test]
fn full_session_on_one_band() {
    // Mode 1, query Metallica.
    let mode = choose_mode("1").unwrap();
    let url = search_url(mode, "Metallica");
    assert_eq!(url, "https://metal-api.dev/search/bands/name/Metallica");

    // One matching band comes back.
    let body = r#"[{"id":"123","name":"Metallica","genre":"Thrash","country":"USA"}]"#;
    let result = parse_search_response(mode, body).unwrap();
    let shown = match &result {
        SearchResult::Band(bands) => {
            assert_eq!(bands.len(), 1);
            match render_results(&result, "Metallica") {
                ResultsScreen::Numbered(lines) => lines,
                ResultsScreen::NoMatches(_) => panic!("one result must be listed"),
            }
        },
        SearchResult::Album(_) => panic!("a band search yields bands"),
    };
    assert_eq!(shown[0], "Found the following results for 'Metallica':");
    assert_eq!(shown[1], "1. Band: Metallica, Genre: Thrash, Country: USA");

    // Selection 1 picks the band; the detail URL carries its identifier.
    let idx = choose_selection("1", 1).unwrap();
    assert_eq!(idx, 0);
    let band = match &result {
        SearchResult::Band(bands) => &bands[idx],
        SearchResult::Album(_) => unreachable!(),
    };
    assert_eq!(band_details_url(&band.id), "https://metal-api.dev/bands/123");

    // A detail response without optional fields prints only the three
    // required lines.
    let detail_body = r#"{"id":"123","name":"Metallica","genre":"Thrash","country":"USA"}"#;
    let detail = metal_search_cli::decode::parse_band_detail_response(detail_body).unwrap();
    let lines = render_band_details(&detail);
    assert_eq!(lines.len(), 3);
    assert_eq!(lines[0], "\nDetails about 'Metallica':");
    assert_eq!(lines[1], "Genre: Thrash");
    assert_eq!(lines[2], "Country: USA");
    assert!(lines.iter().all(|l| !l.starts_with("Formed in: ")));
    assert!(lines.iter().all(|l| !l.starts_with("Themes: ")));
}
