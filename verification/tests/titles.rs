use catnip::title::has_custom_emoji;
use catnip::title::validate_title;
use catnip::title::TitleError;
use catnip::title::MAX_TITLE_LENGTH;

#[test]
fn all_spaces_is_rejected_as_empty() {
    assert_eq!(validate_title("  "), Err(TitleError::Empty));
    assert_eq!(validate_title(""), Err(TitleError::Empty));
}

#[test]
fn over_long_trimmed_title_is_rejected() {
    let long = "a".repeat(129);
    assert_eq!(validate_title(&long), Err(TitleError::TooLong));
    // Surrounding spaces do not count towards the limit.
    let padded = format!("  {}  ", "a".repeat(128));
    assert!(validate_title(&padded).is_ok());
    assert_eq!(MAX_TITLE_LENGTH, 128);
}

#[test]
fn boundary_length_title_is_accepted() {
    let exact = "b".repeat(128);
    assert_eq!(validate_title(&exact), Ok(exact.clone()));
}

#[test]
fn custom_emoji_token_is_rejected() {
    assert_eq!(
        validate_title("<:pepe:123456789012345678> hi"),
        Err(TitleError::ContainsCustomEmoji)
    );
    assert_eq!(validate_title("<:n:1>"), Err(TitleError::ContainsCustomEmoji));
    assert_eq!(
        validate_title("hail <a:wave:42> hail"),
        Err(TitleError::ContainsCustomEmoji)
    );
}

#[test]
fn plain_title_is_accepted_and_trimmed() {
    assert_eq!(validate_title("The Fabulous"), Ok(String::from("The Fabulous")));
    assert_eq!(validate_title("  The Fabulous "), Ok(String::from("The Fabulous")));
}

#[test]
fn near_emoji_shapes_are_accepted() {
    // No second colon: not a token.
    assert_eq!(validate_title("<:x>"), Ok(String::from("<:x>")));
    // Empty name.
    assert_eq!(validate_title("<::1>"), Ok(String::from("<::1>")));
    // Empty id.
    assert_eq!(validate_title("<:x:>"), Ok(String::from("<:x:>")));
    // Non-digit id.
    assert_eq!(validate_title("<:a:1x2>"), Ok(String::from("<:a:1x2>")));
    // The token must stand alone as a whitespace-delimited piece.
    assert_eq!(validate_title("x<:a:1>"), Ok(String::from("x<:a:1>")));
    // Split over two pieces: neither is a token.
    assert_eq!(validate_title("< :a:1>"), Ok(String::from("< :a:1>")));
}

#[test]
fn has_custom_emoji_scans_each_piece() {
    assert!(has_custom_emoji("<:pepe:123456789012345678>"));
    assert!(has_custom_emoji("a word then <a:x:9>"));
    assert!(!has_custom_emoji(""));
    assert!(!has_custom_emoji("plain words only"));
    assert!(!has_custom_emoji("<a:x:> <:y> <z:1>"));
    assert!(!has_custom_emoji("almost <a::3>"));
}
