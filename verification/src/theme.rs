//! Theme keys and initial values.

use vstd::prelude::*;
use crate::env::{Env, KeyOrValue};
use crate::factor::ScreenFactor;
use crate::geometry::Color;

verus! {

/// The environment that holds the theme's initial values.
pub fn init() -> (env: Env)
    ensures
        env == Env(),
{
    Env()
}

/// The color of label text: white.
pub fn label_color() -> (c: KeyOrValue<Color>)
    ensures
        c == KeyOrValue(Color::Rgba32(0xffffff)),
{
    KeyOrValue(Color::Rgba32(0xffffff))
}

/// The normal text size: the built-in font at its own size.
pub open spec fn spec_text_size_normal() -> KeyOrValue<ScreenFactor> {
    KeyOrValue(ScreenFactor { num: 1, den: 1 })
}

/// The normal text size: the built-in font at its own size.
#[verifier::when_used_as_spec(spec_text_size_normal)]
pub fn text_size_normal() -> (s: KeyOrValue<ScreenFactor>)
    ensures
        s == spec_text_size_normal(),
{
    KeyOrValue(ScreenFactor { num: 1, den: 1 })
}

/// The name of the font that labels use.
pub fn font_name() -> (n: KeyOrValue<&'static str>)
    ensures
        n.0@ == "standard_font"@,
{
    KeyOrValue("standard_font")
}

} // verus!
