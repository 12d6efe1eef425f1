//! Settings of the text tool's font that the overlay checks by itself.

use vstd::prelude::*;
use vstd::string::*;
use vstd::utf8::*;

use parley::style::FontFamilyName;

use crate::ipc::bytes_equal;

verus! {

broadcast use group_utf8_lib;

/// The slant a font style setting names.
#[derive(Debug, Clone, Copy, PartialEq, Eq, Structural)]
pub enum FontSlant {
    Normal,
    Italic,
    Oblique,
}

/// The message for a style setting that names no slant.
pub open spec fn font_style_error() -> Seq<char> {
    "tools.text.font.style must be normal, italic, or oblique"@
}

/// The slant a style setting names; an absent setting means `normal`.
pub open spec fn font_slant_spec(style: Seq<char>) -> Option<FontSlant> {
    if style == "normal"@ {
        Some(FontSlant::Normal)
    } else if style == "italic"@ {
        Some(FontSlant::Italic)
    } else if style == "oblique"@ {
        Some(FontSlant::Oblique)
    } else {
        None
    }
}

/// The name of a style setting, `normal` when it is absent.
pub open spec fn style_name(style: Option<&str>) -> Seq<char> {
    match style {
        Some(name) => name@,
        None => "normal"@,
    }
}

/// Whether `text` is the literal `literal`.
fn is_literal(text: &str, literal: &str) -> (res: bool)
    ensures
        res == (text@ == literal@),
{
    let res = bytes_equal(text.as_bytes(), literal.as_bytes());
    proof {
        if res {
            assert(decode_utf8(encode_utf8(text@)) == text@);
            assert(decode_utf8(encode_utf8(literal@)) == literal@);
        }
    }
    res
}

/// The slant of the text tool's font style setting: `normal`, `italic` or
/// `oblique`, or the error message for any other name.
pub fn font_slant(style: Option<&str>) -> (res: Result<FontSlant, String>)
    ensures
        match font_slant_spec(style_name(style)) {
            Some(slant) => res == Ok::<FontSlant, String>(slant),
            None => res matches Err(message) && message@ == font_style_error(),
        },
{
    let name = match style {
        Some(name) => name,
        None => "normal",
    };
    if is_literal(name, "normal") {
        Ok(FontSlant::Normal)
    } else if is_literal(name, "italic") {
        Ok(FontSlant::Italic)
    } else if is_literal(name, "oblique") {
        Ok(FontSlant::Oblique)
    } else {
        Err("tools.text.font.style must be normal, italic, or oblique".to_owned())
    }
}

#[verifier::external_type_specification]
#[verifier::external_body]
pub struct ExFontFamilyName<'a>(FontFamilyName<'a>);

/// What `FontFamilyName::parse_css_list` reads from a CSS font-family list:
/// the families in order, or the message of the first error it reports.
pub uninterp spec fn parsed_font_families(text: Seq<char>) -> Result<Seq<FontFamilyName<'static>>, Seq<char>>;

/// Reads a CSS font-family list with `FontFamilyName::parse_css_list`,
/// gathering its families in order, or the `Display` text of the first error;
/// the result depends only on the text. What it accepts is not stated here.
#[verifier::external_body]
fn parse_font_families(text: &str) -> (res: Result<Vec<FontFamilyName<'static>>, String>)
    ensures
        match res {
            Ok(families) => parsed_font_families(text@) == Ok::<
                Seq<FontFamilyName<'static>>,
                Seq<char>,
            >(families@),
            Err(message) => parsed_font_families(text@) == Err::<
                Seq<FontFamilyName<'static>>,
                Seq<char>,
            >(message@),
        },
{
    FontFamilyName::parse_css_list(text).map(|name| name.map(FontFamilyName::into_owned)).collect::<
        Result<Vec<_>, _>,
    >().map_err(|error| error.to_string())
}

/// The font-family list of a family setting; an absent setting means
/// `sans-serif`.
pub open spec fn font_family_text(family: Option<&str>) -> Seq<char> {
    match family {
        Some(text) => text@,
        None => "sans-serif"@,
    }
}

/// The families of a parsed list, refused with a message when the list does
/// not parse or names no family.
pub open spec fn checked_families_spec(parsed: Result<Seq<FontFamilyName<'static>>, Seq<char>>) -> Result<Seq<FontFamilyName<'static>>, Seq<char>> {
    match parsed {
        Err(message) => Err("invalid tools.text.font.family: "@ + message),
        Ok(families) => if families.len() == 0 {
            Err("tools.text.font.family must not be empty"@)
        } else {
            Ok(families)
        },
    }
}

/// Whether a result holds the families or the message that `expected` gives.
pub open spec fn families_match(res: Result<Vec<FontFamilyName<'static>>, String>, expected: Result<Seq<FontFamilyName<'static>>, Seq<char>>) -> bool {
    match (res, expected) {
        (Ok(families), Ok(spec)) => families@ == spec,
        (Err(message), Err(spec)) => message@ == spec,
        _ => false,
    }
}

/// The families of a parsed font-family list, or why they are refused: the
/// list must parse and name at least one family.
pub fn checked_font_families(parsed: Result<Vec<FontFamilyName<'static>>, String>) -> (res: Result<Vec<FontFamilyName<'static>>, String>)
    ensures
        families_match(
            res,
            checked_families_spec(
                match parsed {
                    Ok(families) => Ok(families@),
                    Err(message) => Err(message@),
                },
            ),
        ),
{
    match parsed {
        Err(message) => Err("invalid tools.text.font.family: ".to_owned().concat(message.as_str())),
        Ok(families) => if families.len() == 0 {
            Err("tools.text.font.family must not be empty".to_owned())
        } else {
            Ok(families)
        },
    }
}

/// The text tool's font families, in order of preference, from its family
/// setting (a CSS font-family list, `sans-serif` when absent), or the
/// message that refuses the setting.
pub fn font_families(family: Option<&str>) -> (res: Result<Vec<FontFamilyName<'static>>, String>)
    ensures
        families_match(res, checked_families_spec(parsed_font_families(font_family_text(family)))),
{
    let text = match family {
        Some(text) => text,
        None => "sans-serif",
    };
    checked_font_families(parse_font_families(text))
}

/// The OpenType tag a font feature's name gives, by its bytes: a name of four
/// characters, each a printable ASCII character or a space.
pub open spec fn feature_tag(name: Seq<char>) -> Option<Seq<u8>> {
    if name.len() == 4 && forall|i: int| 0 <= i < 4 ==> 0x20 <= #[trigger] (name[i] as u32) <= 0x7e {
        Some(Seq::new(4, |i: int| name[i] as u8))
    } else {
        None
    }
}

/// Reads a font feature's tag with `parley::setting::Tag::parse`, which takes
/// exactly four bytes, each printable ASCII or a space, as the tag's bytes.
#[verifier::external_body]
fn parse_feature_tag(name: &str) -> (res: Option<[u8; 4]>)
    ensures
        match res {
            Some(bytes) => feature_tag(name@) == Some(bytes@),
            None => feature_tag(name@) is None,
        },
{
    parley::setting::Tag::parse(name).map(|tag| tag.to_bytes())
}

/// The text that `str`'s `Debug` writes for `text`: the text in double
/// quotes, with quotes, backslashes and unprintable characters escaped.
pub uninterp spec fn debug_quoted(text: Seq<char>) -> Seq<char>;

/// Writes `text` with `str`'s `Debug` formatting; the result depends only on
/// the text. Which characters it escapes, and how, is not stated here.
#[verifier::external_body]
fn debug_quote(text: &str) -> (res: String)
    ensures
        res@ == debug_quoted(text@),
{
    format!("{text:?}")
}

/// The message for a font feature whose name, written as `quoted_name`, is
/// no OpenType tag.
pub open spec fn feature_tag_message(quoted_name: Seq<char>) -> Seq<char> {
    "invalid tools.text.font.features tag "@ + quoted_name
        + ": expected four printable ASCII characters"@
}

/// The message for a font feature whose name, written as `quoted_name`, is
/// no OpenType tag.
pub fn feature_tag_error(quoted_name: &str) -> (res: String)
    ensures
        res@ == feature_tag_message(quoted_name@),
{
    "invalid tools.text.font.features tag ".to_owned().concat(quoted_name).concat(
        ": expected four printable ASCII characters",
    )
}

/// Whether the name `a` sorts before `b`, comparing characters by their code
/// points as strings compare (a proper prefix sorts first).
pub open spec fn name_precedes(a: Seq<char>, b: Seq<char>) -> bool
    decreases a.len(),
{
    if a.len() == 0 {
        b.len() > 0
    } else if b.len() == 0 {
        false
    } else if a[0] == b[0] {
        name_precedes(a.drop_first(), b.drop_first())
    } else {
        (a[0] as u32) < (b[0] as u32)
    }
}

/// Whether features are listed as a map keyed by name holds them: by name,
/// in increasing order, each name once.
pub open spec fn sorted_by_name(features: Seq<(String, u16)>) -> bool {
    forall|i: int, j: int|
        0 <= i < j < features.len() ==> name_precedes(#[trigger] features[i].0@, #[trigger] features[j].0@)
}

/// Whether every feature before index `end` names a tag.
pub open spec fn tags_valid_before(features: Seq<(String, u16)>, end: int) -> bool {
    forall|j: int| 0 <= j < end ==> #[trigger] feature_tag(features[j].0@) is Some
}

/// The OpenType tags and values of the text tool's font features, which
/// come as the entries of the features table, ordered by name; otherwise the
/// message for the first feature (by name) that is no tag, which quotes its
/// name.
pub fn font_features(features: &[(String, u16)]) -> (res: Result<Vec<([u8; 4], u16)>, String>)
    requires
        sorted_by_name(features@),
    ensures
        match res {
            Ok(tags) => {
                &&& tags_valid_before(features@, features@.len() as int)
                &&& tags@.len() == features@.len()
                &&& forall|i: int|
                    0 <= i < tags@.len() ==> feature_tag(features@[i].0@) == Some(
                        #[trigger] tags@[i].0@,
                    ) && tags@[i].1 == features@[i].1
            },
            Err(message) => exists|k: int|
                0 <= k < features@.len() && tags_valid_before(features@, k) && feature_tag(
                    #[trigger] features@[k].0@,
                ) is None && message@ == feature_tag_message(debug_quoted(features@[k].0@)),
        },
{
    let mut tags: Vec<([u8; 4], u16)> = Vec::new();
    let mut i: usize = 0;
    while i < features.len()
        invariant
            i <= features@.len(),
            tags@.len() == i,
            tags_valid_before(features@, i as int),
            forall|j: int|
                0 <= j < i ==> feature_tag(features@[j].0@) == Some(#[trigger] tags@[j].0@)
                    && tags@[j].1 == features@[j].1,
        decreases features@.len() - i,
    {
        match parse_feature_tag(features[i].0.as_str()) {
            Some(tag) => {
                tags.push((tag, features[i].1));
            },
            None => {
                let quoted = debug_quote(features[i].0.as_str());
                return Err(feature_tag_error(quoted.as_str()));
            },
        }
        i = i + 1;
    }
    Ok(tags)
}

} // verus!
