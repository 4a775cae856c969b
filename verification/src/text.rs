//! Text sources and the measurement of text in the built-in fixed-cell font.

use vstd::prelude::*;
use vstd::string::*;
use vstd::utf8::encode_utf8;
use crate::env::Env;
use crate::factor::ScreenFactor;
use crate::geometry::{min, ScreenCoord};

verus! {

/// The number of bytes that a [`Text`] can hold.
pub const TEXT_CAPACITY: usize = 20;

/// A `heapless::String` with room for [`TEXT_CAPACITY`] bytes.
#[verifier::external_body]
#[derive(Debug)]
pub struct TextBuf {
    chars: heapless::String<heapless::consts::U20>,
}

/// The characters that a [`TextBuf`] holds.
pub uninterp spec fn text_buf_chars(t: TextBuf) -> Seq<char>;

/// `heapless::String::new`: the new string holds nothing.
#[verifier::external_body]
fn text_buf_new() -> (t: TextBuf)
    ensures
        text_buf_chars(t) == Seq::<char>::empty(),
{
    TextBuf { chars: heapless::String::new() }
}

/// `heapless::String::push_str`: appends `s` when the bytes held and the
/// bytes of `s` together fit into the capacity; else the string is left as
/// it is, which is reported as `false`.
#[verifier::external_body]
fn text_buf_push_str(t: &mut TextBuf, s: &str) -> (pushed: bool)
    ensures
        pushed == (encode_utf8(text_buf_chars(*old(t))).len() + s.spec_bytes().len()
            <= TEXT_CAPACITY),
        pushed ==> text_buf_chars(*final(t)) == text_buf_chars(*old(t)) + s@,
        !pushed ==> text_buf_chars(*final(t)) == text_buf_chars(*old(t)),
{
    t.chars.push_str(s).is_ok()
}

/// `heapless::String::as_str`: the characters held, as a string slice.
#[verifier::external_body]
fn text_buf_as_str(t: &TextBuf) -> (s: &str)
    ensures
        s@ == text_buf_chars(*t),
{
    t.chars.as_str()
}

/// `Clone` for `heapless::String`: the copy holds the same characters.
#[verifier::external_body]
fn text_buf_clone(t: &TextBuf) -> (copy: TextBuf)
    ensures
        text_buf_chars(copy) == text_buf_chars(*t),
{
    TextBuf { chars: t.chars.clone() }
}

/// A short text of bounded length, held without allocation.
#[derive(Debug)]
pub struct Text {
    buf: TextBuf,
}

impl Text {
    /// The characters of the text.
    pub closed spec fn view(&self) -> Seq<char> {
        text_buf_chars(self.buf)
    }

    /// The encoded text fits into the capacity.
    #[verifier::type_invariant]
    spec fn fits(&self) -> bool {
        encode_utf8(text_buf_chars(self.buf)).len() <= TEXT_CAPACITY
    }

    /// The empty text.
    pub fn new() -> (t: Text)
        ensures
            t@ == Seq::<char>::empty(),
    {
        Text { buf: text_buf_new() }
    }

    /// The text that holds `s`, or `None` where `s` is longer than
    /// [`TEXT_CAPACITY`] bytes.
    pub fn from_str(s: &str) -> (t: Option<Text>)
        ensures
            t is Some <==> s.spec_bytes().len() <= TEXT_CAPACITY,
            t matches Some(text) ==> text@ == s@,
    {
        let mut buf = text_buf_new();
        assert(encode_utf8(text_buf_chars(buf)).len() == 0);
        if text_buf_push_str(&mut buf, s) {
            assert(text_buf_chars(buf) =~= s@);
            Some(Text { buf })
        } else {
            None
        }
    }

    /// The text as a string slice.
    pub fn as_str(&self) -> (s: &str)
        ensures
            s@ == self@,
            s.spec_bytes().len() <= TEXT_CAPACITY,
    {
        proof {
            use_type_invariant(self);
        }
        text_buf_as_str(&self.buf)
    }

    /// The number of characters of the text.
    pub fn char_count(&self) -> (n: usize)
        ensures
            n == self@.len(),
    {
        text_buf_as_str(&self.buf).unicode_len()
    }
}

impl Clone for Text {
    fn clone(&self) -> (copy: Text)
        ensures
            copy@ == self@,
    {
        proof {
            use_type_invariant(self);
        }
        Text { buf: text_buf_clone(&self.buf) }
    }
}

/// The width of one character cell of the built-in font at its own size.
pub const GLYPH_WIDTH: ScreenCoord = 8;

/// The height of one character cell of the built-in font at its own size.
pub const GLYPH_HEIGHT: ScreenCoord = 10;

/// The factor between the height of a character cell and the height of a line.
pub open spec fn spec_line_height_factor() -> ScreenFactor {
    ScreenFactor { num: 6, den: 5 }
}

/// The factor between the height of a character cell and the height of a line.
#[verifier::when_used_as_spec(spec_line_height_factor)]
pub fn line_height_factor() -> (f: ScreenFactor)
    ensures
        f == spec_line_height_factor(),
{
    ScreenFactor { num: 6, den: 5 }
}

/// The height of a line of text set at `size`.
pub open spec fn spec_line_height(size: ScreenFactor) -> ScreenCoord {
    spec_line_height_factor().spec_scale(size.spec_scale(GLYPH_HEIGHT))
}

/// The height of a line of text set at `size`.
#[verifier::when_used_as_spec(spec_line_height)]
pub fn line_height(size: ScreenFactor) -> (h: ScreenCoord)
    ensures
        h == spec_line_height(size),
{
    line_height_factor().scale(size.scale(GLYPH_HEIGHT))
}

/// The width of `chars` characters set at `size`: the number of characters
/// times the width of a scaled cell, stopped at the largest coordinate.
pub open spec fn spec_text_width(chars: nat, size: ScreenFactor) -> ScreenCoord {
    let w = chars * size.spec_scale(GLYPH_WIDTH);
    if w > 255 {
        255
    } else {
        w as ScreenCoord
    }
}

/// The width of `chars` characters set at `size`.
pub fn text_width(chars: usize, size: ScreenFactor) -> (w: ScreenCoord)
    ensures
        w == spec_text_width(chars as nat, size),
{
    let advance: u32 = size.scale(GLYPH_WIDTH) as u32;
    let capped: u32 = if chars > 255 {
        255
    } else {
        chars as u32
    };
    assert(capped * advance <= 255 * 255) by (nonlinear_arith)
        requires
            capped <= 255,
            advance <= 255,
    ;
    let w: u32 = capped * advance;
    proof {
        if chars > 255 {
            if advance == 0 {
                assert(chars * advance == 0) by (nonlinear_arith)
                    requires
                        advance == 0,
                ;
            } else {
                assert(chars * advance > 255 && capped * advance >= 255) by (nonlinear_arith)
                    requires
                        chars > 255,
                        capped == 255,
                        advance >= 1,
                ;
            }
        }
    }
    if w > 255 {
        255
    } else {
        w as ScreenCoord
    }
}

/// The text service: a font of the built-in family at some size.
#[derive(Clone, Copy, Debug, PartialEq, Eq, Structural)]
pub struct PietText {
    /// The size of the font, as a factor of the built-in cell.
    pub size: ScreenFactor,
}

impl PietText {
    /// The text service with the built-in font at its own size.
    pub fn new() -> (t: PietText)
        ensures
            t.size == ScreenFactor::spec_one(),
    {
        PietText { size: ScreenFactor::one() }
    }

    /// The font of the given name at the given size. The built-in family
    /// has one face, so the name selects nothing.
    pub fn new_font_by_name(&self, font_name: &str, font_size: ScreenFactor) -> (font: PietText)
        ensures
            font.size == font_size,
    {
        PietText { size: font_size }
    }

    /// Finishes a font request. It never fails.
    pub fn build(self) -> (r: Result<PietText, ()>)
        ensures
            r == Ok::<PietText, ()>(self),
    {
        Ok(self)
    }

    /// Lays out `text` on one line in `font`. The measured width is the
    /// width of the text, stopped at `max_width`. The layout holds a copy
    /// of the text, so the text must fit into a [`Text`].
    pub fn new_text_layout(&self, font: &PietText, text: &str, max_width: ScreenCoord) -> (layout:
        PietTextLayout)
        requires
            text.spec_bytes().len() <= TEXT_CAPACITY,
        ensures
            layout.width == crate::geometry::spec_min(
                spec_text_width(text@.len(), font.size),
                max_width,
            ),
            layout.font@ == Seq::<char>::empty(),
            layout.text@ == text@,
    {
        let natural: ScreenCoord = text_width(text.unicode_len(), font.size);
        PietTextLayout {
            width: min(natural, max_width),
            font: Text::new(),
            text: Text::from_str(text).unwrap(),
        }
    }
}

/// A laid-out block of text.
pub struct PietTextLayout {
    /// The measured width of the text.
    pub width: ScreenCoord,
    /// The name of the font; the built-in font has none.
    pub font: Text,
    /// The text.
    pub text: Text,
}

impl PietTextLayout {
    /// The measured width of the text.
    pub fn width(self) -> (w: ScreenCoord)
        ensures
            w == self.width,
    {
        self.width
    }

    /// Finishes the layout. It never fails.
    pub fn build(self) -> (r: Result<PietTextLayout, ()>)
        ensures
            r == Ok::<PietTextLayout, ()>(self),
    {
        Ok(self)
    }
}

/// A text that the host computes from the application data and hands over.
pub struct BoxedText {
    text: Text,
}

impl BoxedText {
    /// The text as the host last set it.
    pub closed spec fn view(&self) -> Seq<char> {
        self.text@
    }

    /// A computed text that is still empty.
    pub fn new() -> (t: BoxedText)
        ensures
            t@ == Seq::<char>::empty(),
    {
        BoxedText { text: Text::new() }
    }

    /// Replaces the text by what the host computed.
    pub fn set(&mut self, text: Text)
        ensures
            final(self)@ == text@,
    {
        self.text = text;
    }

    /// The text for the given data and environment: the text last set.
    pub fn resolve<T>(&self, data: T, env: &Env) -> (s: Text)
        ensures
            s@ == self@,
    {
        self.text.clone()
    }
}

/// A string that can be localized based on the current locale. Only one
/// locale is built in, which maps every key to the same placeholder.
pub struct LocalizedString<T>(pub Option<T>);

impl<T> LocalizedString<T> {
    /// Create a new `LocalizedString` with the given key.
    pub fn new(key: &str) -> (s: LocalizedString<T>)
        ensures
            s.0.is_none(),
    {
        LocalizedString(None)
    }

    /// Return the localized value for this string.
    pub fn localized_str(&self) -> (s: &'static str)
        ensures
            s@ == "localized_str"@,
            s.spec_bytes().len() <= TEXT_CAPACITY,
    {
        let s = "localized_str";
        proof {
            reveal_strlit("localized_str");
            assert(is_ascii(s));
            is_ascii_spec_bytes(s);
        }
        s
    }

    /// Lazily compute the localized value for this string based on the
    /// provided environment and data. Returns `true` if the value may have
    /// changed; nothing is cached, so it always does.
    pub fn resolve(&self, data: &T, env: &Env) -> (changed: bool)
        ensures
            changed,
    {
        true
    }
}

} // verus!
