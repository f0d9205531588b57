use texswizzle::format::{tag_to_format, token_to_format, PixelFormat};

#[test]
fn token_mapping_accepts_documented_tokens() {
    assert_eq!(token_to_format("R8"), Some(PixelFormat::R8Unorm));
    assert_eq!(token_to_format("RGBA8"), Some(PixelFormat::Rgba8Unorm));
    assert_eq!(token_to_format("BC7"), Some(PixelFormat::BptcUnormSrgb));
    assert_eq!(token_to_format("BPTC"), Some(PixelFormat::BptcUnormSrgb));
}

#[test]
fn token_mapping_ignores_ascii_case() {
    assert_eq!(token_to_format("r8"), Some(PixelFormat::R8Unorm));
    assert_eq!(token_to_format("Rgba8"), Some(PixelFormat::Rgba8Unorm));
    assert_eq!(token_to_format("rgba8"), Some(PixelFormat::Rgba8Unorm));
    assert_eq!(token_to_format("bc7"), Some(PixelFormat::BptcUnormSrgb));
    assert_eq!(token_to_format("bPtC"), Some(PixelFormat::BptcUnormSrgb));
}

#[test]
fn token_mapping_rejects_every_other_token() {
    assert_eq!(token_to_format(""), None);
    assert_eq!(token_to_format("R16"), None);
    assert_eq!(token_to_format("RGB8"), None);
    assert_eq!(token_to_format("BC"), None);
    assert_eq!(token_to_format("BC77"), None);
    assert_eq!(token_to_format("R8 "), None);
    assert_eq!(token_to_format("8R"), None);
}

#[test]
fn tag_mapping_covers_supported_native_tags() {
    assert_eq!(tag_to_format(28), Some(PixelFormat::Rgba8Unorm));
    assert_eq!(tag_to_format(61), Some(PixelFormat::R8Unorm));
    assert_eq!(tag_to_format(98), Some(PixelFormat::BptcUnormSrgb));
    assert_eq!(tag_to_format(99), Some(PixelFormat::BptcUnormSrgb));
}

#[test]
fn tag_mapping_rejects_other_tags() {
    assert_eq!(tag_to_format(0), None);
    assert_eq!(tag_to_format(27), None);
    assert_eq!(tag_to_format(71), None);
    assert_eq!(tag_to_format(u32::MAX), None);
}
