use oxfeed_front::search::search_location;
use oxfeed_front::text::{decimal_string, digit};

#[test]
fn search_from_a_page() {
    assert_eq!(search_location("/all", false, "q=rust"), "/search/all?q=rust");
    assert_eq!(search_location("/search/unread", false, "q=a"), "/search/unread?q=a");
}

#[test]
fn emptied_search_goes_back_to_the_page() {
    assert_eq!(search_location("/search/favorites", true, ""), "/favorites");
    assert_eq!(search_location("/sources", true, ""), "/sources");
}

#[test]
fn every_leading_search_is_stripped() {
    assert_eq!(search_location("/search/search/all", true, ""), "/all");
    assert_eq!(search_location("/search/search/all", false, "q=x"), "/search/all?q=x");
    assert_eq!(search_location("/searchable", true, ""), "able");
}

#[test]
fn decimal_renderings() {
    assert_eq!(decimal_string(0), "0");
    assert_eq!(decimal_string(7), "7");
    assert_eq!(decimal_string(1234567890), "1234567890");
    assert_eq!(decimal_string(u64::MAX), "18446744073709551615");
    assert_eq!(digit(9), '9');
}
