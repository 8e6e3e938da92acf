use metal_search_cli::decode::DecodeError;
use metal_search_cli::decode::parse_album_detail_response;
use metal_search_cli::decode::parse_album_search_response;
use metal_search_cli::decode::parse_band_detail_response;
use metal_search_cli::decode::parse_band_search_response;

#[test]
fn required_fields_are_populated() {
    let body = r#"[{"id":"123","name":"Metallica","genre":"Thrash","country":"USA"}]"#;
    let bands = parse_band_search_response(body).unwrap();
    assert_eq!(bands.len(), 1);
    assert_eq!(bands[0].id, "123");
    assert_eq!(bands[0].name, "Metallica");
    assert_eq!(bands[0].genre, "Thrash");
    assert_eq!(bands[0].country, "USA");
}

#[test]
fn missing_optional_field_is_absent_not_an_error() {
    let body = r#"[{"id":"1","name":"A","genre":"Doom","country":"UK"}]"#;
    let bands = parse_band_search_response(body).unwrap();
    assert!(bands[0].location.is_none());
    assert!(bands[0].formedIn.is_none());
    assert!(bands[0].albums.is_none());
}

#[test]
fn null_optional_field_is_absent_not_an_error() {
    let body = r#"[{"id":"1","name":"A","genre":"Doom","country":"UK","location":null,"albums":null}]"#;
    let bands = parse_band_search_response(body).unwrap();
    assert!(bands[0].location.is_none());
    assert!(bands[0].albums.is_none());
}

#[test]
fn present_optional_field_is_kept() {
    let body = r#"[{"id":"1","name":"A","genre":"Doom","country":"UK","location":"Leeds"}]"#;
    let bands = parse_band_search_response(body).unwrap();
    assert_eq!(bands[0].location.as_deref(), Some("Leeds"));
}

#[test]
fn wrong_typed_optional_field_is_an_error() {
    let body = r#"[{"id":"1","name":"A","genre":"Doom","country":"UK","location":5}]"#;
    assert_eq!(parse_band_search_response(body).unwrap_err(), DecodeError::BadShape);
}

#[test]
fn missing_required_field_is_an_error() {
    let body = r#"[{"id":"1","genre":"Doom","country":"UK"}]"#;
    assert_eq!(parse_band_search_response(body).unwrap_err(), DecodeError::BadShape);
}

#[test]
fn numeric_required_field_is_an_error() {
    let body = r#"[{"id":1,"name":"A","genre":"Doom","country":"UK"}]"#;
    assert_eq!(parse_band_search_response(body).unwrap_err(), DecodeError::BadShape);
}

#[test]
fn invalid_json_is_reported_as_such() {
    assert_eq!(parse_band_search_response("not json").unwrap_err(), DecodeError::InvalidJson);
}

#[test]
fn empty_array_is_a_valid_empty_result() {
    assert_eq!(parse_band_search_response("[]").unwrap().len(), 0);
    assert_eq!(parse_album_search_response("[]").unwrap().len(), 0);
}

#[test]
fn band_albums_are_decoded() {
    let body = r#"[{"id":"1","name":"A","genre":"Doom","country":"UK",
        "albums":[{"id":"9","name":"First","type":"Full-length","year":"1990","link":"l1"},
                  {"id":"10","name":"Second","type":null,"link":"l2"}]}]"#;
    let bands = parse_band_search_response(body).unwrap();
    let albums = bands[0].albums.as_ref().unwrap();
    assert_eq!(albums.len(), 2);
    assert_eq!(albums[0].name, "First");
    assert_eq!(albums[0].year.as_deref(), Some("1990"));
    assert!(albums[1].type_.is_none());
    assert!(albums[1].year.is_none());
}

#[test]
fn album_search_cleans_the_date() {
    let body = r#"[{"id":"7","title":"Ride","type":"Full-length","date":" 1984<!--note--> ","link":"l"}]"#;
    let albums = parse_album_search_response(body).unwrap();
    assert_eq!(albums[0].date.as_deref(), Some("1984"));
}

#[test]
fn album_search_embedded_band_is_decoded() {
    let body = r#"[{"id":"7","title":"Ride","link":"l",
        "band":{"id":"3","name":"B","genre":"Thrash","country":"USA"}}]"#;
    let albums = parse_album_search_response(body).unwrap();
    assert_eq!(albums[0].band.as_ref().unwrap().name, "B");
    assert!(albums[0].type_.is_none());
    assert!(albums[0].date.is_none());
}

#[test]
fn band_detail_is_a_single_object() {
    let body = r#"{"id":"123","name":"Metallica","genre":"Thrash","country":"USA"}"#;
    let band = parse_band_detail_response(body).unwrap();
    assert_eq!(band.name, "Metallica");
    let err = parse_band_detail_response("[]").unwrap_err();
    assert_eq!(err, DecodeError::BadShape);
}

#[test]
fn album_detail_is_decoded_with_songs() {
    let body = r#"{"id":"5","name":"Ride the Lightning","type":"Full-length",
        "releaseDate":"1984","catalogID":"c1","versionDescription":"vd",
        "label":"Megaforce","format":"CD","limitations":"none","reviews":"r","coverUrl":"u",
        "songs":[{"id":"s1","number":"1","name":"Fight Fire with Fire","length":"4:45","lyrics":"..."}]}"#;
    let a = parse_album_detail_response(body).unwrap();
    assert_eq!(a.album_type, "Full-length");
    assert_eq!(a.releaseDate, "1984");
    assert_eq!(a.label.as_deref(), Some("Megaforce"));
    assert_eq!(a.albumFormat.as_deref(), Some("CD"));
    let songs = a.songs.as_ref().unwrap();
    assert_eq!(songs.len(), 1);
    assert_eq!(songs[0].number, "1");
}

#[test]
fn album_detail_optionals_may_be_missing() {
    let body = r#"{"id":"5","name":"N","type":"EP","releaseDate":"1990","catalogID":"c",
        "versionDescription":"v","limitations":"none","reviews":"r","coverUrl":"u"}"#;
    let a = parse_album_detail_response(body).unwrap();
    assert!(a.label.is_none());
    assert!(a.albumFormat.is_none());
    assert!(a.songs.is_none());
}
