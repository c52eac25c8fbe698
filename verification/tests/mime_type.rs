use clipboard_stream::mime_type::{ImageMimeType, ParseImageMimeTypeError};

#[test]
fn test_parsing_and_fallback() {
    // Test unknown type
    let unknown = ImageMimeType::from_name("application/pdf");
    assert_eq!(
        unknown,
        ImageMimeType::Unknown("application/pdf".to_string())
    );

    // Test empty string
    let empty = ImageMimeType::from_name("");
    assert_eq!(empty, ImageMimeType::Unknown("".to_string()));
}

#[test]
fn test_display() {
    assert_eq!(ImageMimeType::Png.to_string(), "image/png");
    assert_eq!(ImageMimeType::Jpeg.to_string(), "image/jpeg");
    assert_eq!(ImageMimeType::Svg.to_string(), "image/svg+xml");
    let unknown = ImageMimeType::Unknown("video/mp4".to_string());
    assert_eq!(unknown.to_string(), "video/mp4");
}

#[test]
fn test_strict_from_str() {
    assert_eq!("image/gif".parse::<ImageMimeType>(), Ok(ImageMimeType::Gif));
    assert_eq!(
        "text/plain".parse::<ImageMimeType>(),
        Err(ParseImageMimeTypeError)
    );
}

#[test]
fn display_of_every_known_type() {
    assert_eq!(ImageMimeType::Gif.to_string(), "image/gif");
    assert_eq!(ImageMimeType::Webp.to_string(), "image/webp");
    assert_eq!(ImageMimeType::Bmp.to_string(), "image/bmp");
    assert_eq!(ImageMimeType::Ico.to_string(), "image/vnd.microsoft.icon");
}

#[test]
fn from_name_knows_every_spelling() {
    assert_eq!(ImageMimeType::from_name("image/png"), ImageMimeType::Png);
    assert_eq!(ImageMimeType::from_name("image/jpeg"), ImageMimeType::Jpeg);
    assert_eq!(ImageMimeType::from_name("image/jpg"), ImageMimeType::Jpeg);
    assert_eq!(ImageMimeType::from_name("image/gif"), ImageMimeType::Gif);
    assert_eq!(ImageMimeType::from_name("image/webp"), ImageMimeType::Webp);
    assert_eq!(ImageMimeType::from_name("image/bmp"), ImageMimeType::Bmp);
    assert_eq!(ImageMimeType::from_name("image/svg+xml"), ImageMimeType::Svg);
    assert_eq!(ImageMimeType::from_name("image/x-icon"), ImageMimeType::Ico);
    assert_eq!(
        ImageMimeType::from_name("image/vnd.microsoft.icon"),
        ImageMimeType::Ico
    );
}

#[test]
fn from_name_is_exact() {
    assert_eq!(
        ImageMimeType::from_name("IMAGE/PNG"),
        ImageMimeType::Unknown("IMAGE/PNG".to_string())
    );
    assert_eq!(
        ImageMimeType::from_name("image/png "),
        ImageMimeType::Unknown("image/png ".to_string())
    );
}

#[test]
fn parse_strict_matches_from_str() {
    assert_eq!(
        ImageMimeType::parse_strict("image/webp"),
        Ok(ImageMimeType::Webp)
    );
    assert_eq!(
        ImageMimeType::parse_strict(""),
        Err(ParseImageMimeTypeError)
    );
    assert_eq!(
        "image/vnd.microsoft.icon".parse::<ImageMimeType>(),
        Ok(ImageMimeType::Ico)
    );
}

#[test]
fn from_ext_knows_the_eight_extensions() {
    assert_eq!(ImageMimeType::from_ext("png"), Some(ImageMimeType::Png));
    assert_eq!(ImageMimeType::from_ext("jpg"), Some(ImageMimeType::Jpeg));
    assert_eq!(ImageMimeType::from_ext("jpeg"), Some(ImageMimeType::Jpeg));
    assert_eq!(ImageMimeType::from_ext("gif"), Some(ImageMimeType::Gif));
    assert_eq!(ImageMimeType::from_ext("bmp"), Some(ImageMimeType::Bmp));
    assert_eq!(ImageMimeType::from_ext("webp"), Some(ImageMimeType::Webp));
    assert_eq!(ImageMimeType::from_ext("svg"), Some(ImageMimeType::Svg));
    assert_eq!(ImageMimeType::from_ext("ico"), Some(ImageMimeType::Ico));
}

#[test]
fn from_ext_rejects_everything_else() {
    assert_eq!(ImageMimeType::from_ext("txt"), None);
    assert_eq!(ImageMimeType::from_ext(""), None);
    assert_eq!(ImageMimeType::from_ext("PNG"), None);
    assert_eq!(ImageMimeType::from_ext(".png"), None);
}

#[test]
fn known_types_survive_printing_and_parsing() {
    let known = vec![
        ImageMimeType::Png,
        ImageMimeType::Jpeg,
        ImageMimeType::Gif,
        ImageMimeType::Webp,
        ImageMimeType::Bmp,
        ImageMimeType::Svg,
        ImageMimeType::Ico,
    ];
    for mime in known {
        let text = mime.to_string();
        assert_eq!(ImageMimeType::from_name(&text), mime);
        assert_eq!(ImageMimeType::parse_strict(&text), Ok(mime.duplicate()));
    }
}

#[test]
fn duplicate_keeps_the_unknown_text() {
    let unknown = ImageMimeType::Unknown("video/mp4".to_string());
    assert_eq!(unknown.duplicate(), unknown);
}
