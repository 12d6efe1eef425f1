use std::borrow::Cow;

use parley::style::{FontFamilyName, GenericFamily};
use vellum::config::{checked_font_families, font_families};
use vellum::config::{feature_tag_error, font_features, font_slant, FontSlant};

fn tag_error(quoted: &str) -> String {
    format!("invalid tools.text.font.features tag {quoted}: expected four printable ASCII characters")
}

#[test]
fn font_slant_names() {
    assert_eq!(font_slant(None), Ok(FontSlant::Normal));
    assert_eq!(font_slant(Some("italic")), Ok(FontSlant::Italic));
    assert_eq!(font_slant(Some("oblique")), Ok(FontSlant::Oblique));
    assert_eq!(
        font_slant(Some("Italic")),
        Err("tools.text.font.style must be normal, italic, or oblique".to_string())
    );
}

#[test]
fn font_feature_tags() {
    let features = vec![("kern".to_string(), 0u16), ("ss01".to_string(), 1u16)];
    assert_eq!(font_features(&features), Ok(vec![(*b"kern", 0), (*b"ss01", 1)]));
    let features = vec![("cv01".to_string(), 1u16), ("lig".to_string(), 1u16), ("liga".to_string(), 1u16)];
    assert_eq!(font_features(&features), Err(tag_error("\"lig\"")));
    let features = vec![("cv 1".to_string(), 2u16)];
    assert_eq!(font_features(&features), Ok(vec![(*b"cv 1", 2)]));
    let features = vec![("ñaaa".to_string(), 2u16)];
    assert_eq!(font_features(&features), Err(tag_error("\"ñaaa\"")));
    let features = vec![("x\ty\"z".to_string(), 1u16)];
    assert_eq!(font_features(&features), Err(tag_error("\"x\\ty\\\"z\"")));
}

#[test]
fn feature_tag_error_text() {
    assert_eq!(
        feature_tag_error("\"ab\""),
        "invalid tools.text.font.features tag \"ab\": expected four printable ASCII characters"
    );
}

#[test]
fn font_family_lists() {
    assert_eq!(font_families(None), Ok(vec![FontFamilyName::Generic(GenericFamily::SansSerif)]));
    assert_eq!(
        font_families(Some("Arial, 'Times New Roman', serif")),
        Ok(vec![
            FontFamilyName::Named(Cow::Owned("Arial".to_string())),
            FontFamilyName::Named(Cow::Owned("Times New Roman".to_string())),
            FontFamilyName::Generic(GenericFamily::Serif),
        ])
    );
    assert_eq!(font_families(Some("")), Err("tools.text.font.family must not be empty".to_string()));
    let refused = font_families(Some("Arial,,serif")).unwrap_err();
    assert!(refused.starts_with("invalid tools.text.font.family: "));
    assert_eq!(
        checked_font_families(Err("bad".to_string())),
        Err("invalid tools.text.font.family: bad".to_string())
    );
    assert_eq!(
        checked_font_families(Ok(Vec::new())),
        Err("tools.text.font.family must not be empty".to_string())
    );
}
