use oxfeed_front::color::Color;

#[test]
fn color_of_empty_text_is_start_of_its_digest() {
    // SHA-256 of the empty text starts with e3 b0 c4.
    assert_eq!(Color::from("").to_color_string(), "#E3B0C4");
}

#[test]
fn color_of_a_name() {
    assert_eq!(Color::from("oxfeed").to_color_string(), "#6DE983");
    assert_eq!(Color::from("rust").to_color_string(), "#521FE5");
}

#[test]
fn bright_color_is_not_dark() {
    assert!(!Color::from("").is_dark());
    assert!(!Color::from("oxfeed").is_dark());
}

#[test]
fn dim_color_is_dark() {
    assert!(Color::from("rust").is_dark());
    assert!(Color::from("tag3").is_dark());
}

#[test]
fn update_replaces_the_color() {
    let mut color = Color::from("");
    let updated = color.update("tag3").to_color_string();
    assert_eq!(updated, "#6008EF");
    assert_eq!(color.to_color_string(), "#6008EF");
}
