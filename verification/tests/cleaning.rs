use metal_search_cli::dates::clean_date;

#[test]
fn comment_is_stripped() {
    assert_eq!(clean_date("2020<!--comment-->"), "2020");
}

#[test]
fn no_marker_means_trim_only() {
    assert_eq!(clean_date("  2020  "), "2020");
    assert_eq!(clean_date("2020"), "2020");
}

#[test]
fn several_comments_are_stripped() {
    assert_eq!(clean_date("<!--a--> 1995 <!--b-->"), "1995");
}

#[test]
fn unclosed_marker_stays() {
    assert_eq!(clean_date("2020<!--x"), "2020<!--x");
}

#[test]
fn cleaning_twice_equals_cleaning_once() {
    let once = clean_date("  2019<!--c--> ");
    let twice = clean_date(&once);
    assert_eq!(once, twice);
    assert_eq!(once, "2019");
}

#[test]
fn splicing_can_need_a_second_pass() {
    // Removing the inner comment splices its neighbours into a new one;
    // one pass leaves that spliced comment in place.
    assert_eq!(clean_date("<<!---->!-- x -->"), "<!-- x -->");
}

#[test]
fn whole_remainder_can_be_one_comment() {
    assert_eq!(clean_date("1988 <!-- the whole rest of the text -->"), "1988");
}
