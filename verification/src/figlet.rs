//! Big text for the clock, drawn with the fonts that the figlet crate
//! bundles.

use vstd::prelude::*;
use crate::config::Fonts;

verus! {

/// The fonts whose files come with the figlet crate.
pub open spec fn is_bundled(font: Fonts) -> bool {
    font == Fonts::SmBlock || font == Fonts::Future || font == Fonts::Mono9 || font == Fonts::Mono12
}

/// A name for what the figlet crate draws of `text` in its bundled
/// `smblock` font, or none when it gives none.
pub uninterp spec fn smblock_figure(text: Seq<char>) -> Option<Seq<char>>;

/// A name for what the figlet crate draws of `text` in its bundled `future`
/// font, or none when it gives none.
pub uninterp spec fn future_figure(text: Seq<char>) -> Option<Seq<char>>;

/// A name for what the figlet crate draws of `text` in its bundled `mono9`
/// font, or none when it gives none.
pub uninterp spec fn mono9_figure(text: Seq<char>) -> Option<Seq<char>>;

/// A name for what the figlet crate draws of `text` in its bundled `mono12`
/// font, or none when it gives none.
pub uninterp spec fn mono12_figure(text: Seq<char>) -> Option<Seq<char>>;

/// What the figlet crate draws of `text` in a bundled font.
pub open spec fn figure(font: Fonts, text: Seq<char>) -> Option<Seq<char>> {
    match font {
        Fonts::SmBlock => smblock_figure(text),
        Fonts::Future => future_figure(text),
        Fonts::Mono9 => mono9_figure(text),
        _ => mono12_figure(text),
    }
}

/// Loads `Toilet::smblock`, draws `text` with `Toilet::convert` and renders
/// the figure with its `Display`; the result is named `smblock_figure` of
/// the text. Nothing is claimed of when it is absent.
#[verifier::external_body]
fn draw_smblock(text: &str) -> (r: Option<String>)
    ensures
        match r {
            Some(s) => smblock_figure(text@) == Some(s@),
            None => smblock_figure(text@) is None,
        },
{
    figlet_rs::Toilet::smblock().ok().and_then(|t| t.convert(text).map(|f| f.to_string()))
}

/// Draws `text` in `Toilet::future`, as `draw_smblock` does; the result is
/// named `future_figure` of the text.
#[verifier::external_body]
fn draw_future(text: &str) -> (r: Option<String>)
    ensures
        match r {
            Some(s) => future_figure(text@) == Some(s@),
            None => future_figure(text@) is None,
        },
{
    figlet_rs::Toilet::future().ok().and_then(|t| t.convert(text).map(|f| f.to_string()))
}

/// Draws `text` in `Toilet::mono9`, as `draw_smblock` does; the result is
/// named `mono9_figure` of the text.
#[verifier::external_body]
fn draw_mono9(text: &str) -> (r: Option<String>)
    ensures
        match r {
            Some(s) => mono9_figure(text@) == Some(s@),
            None => mono9_figure(text@) is None,
        },
{
    figlet_rs::Toilet::mono9().ok().and_then(|t| t.convert(text).map(|f| f.to_string()))
}

/// Draws `text` in `Toilet::mono12`, as `draw_smblock` does; the result is
/// named `mono12_figure` of the text.
#[verifier::external_body]
fn draw_mono12(text: &str) -> (r: Option<String>)
    ensures
        match r {
            Some(s) => mono12_figure(text@) == Some(s@),
            None => mono12_figure(text@) is None,
        },
{
    figlet_rs::Toilet::mono12().ok().and_then(|t| t.convert(text).map(|f| f.to_string()))
}

/// `text` drawn big in the given font; a font whose file does not come with
/// the figlet crate leaves the text as it is.
pub fn big_text(text: &str, font: Fonts) -> (r: Option<String>)
    ensures
        is_bundled(font) ==> match r {
            Some(s) => figure(font, text@) == Some(s@),
            None => figure(font, text@) is None,
        },
        !is_bundled(font) ==> (r matches Some(s) && s@ == text@),
{
    match font {
        Fonts::SmBlock => draw_smblock(text),
        Fonts::Future => draw_future(text),
        Fonts::Mono9 => draw_mono9(text),
        Fonts::Mono12 => draw_mono12(text),
        _ => Some(String::from_str(text)),
    }
}

} // verus!
