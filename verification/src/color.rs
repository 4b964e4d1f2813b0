//! Colours with four 8-bit channels, and the colour arithmetic of the
//! `css_colors` and `css_color` crates behind contracts.

use vstd::prelude::*;

verus! {

/// A colour: red, green, blue and opacity, each from 0 to 255.
#[derive(Clone, Copy, Debug, PartialEq, Eq, Structural)]
pub struct Rgba {
    pub r: u8,
    pub g: u8,
    pub b: u8,
    pub a: u8,
}

/// What `css_color` reads out of a colour in CSS notation: the bit patterns
/// of the four single-precision channels (red, green, blue, opacity), or
/// nothing where the text is no colour.
pub uninterp spec fn parsed_color(text: Seq<char>) -> Option<(u32, u32, u32, u32)>;

/// The colour that `css_colors` gives for `color` made lighter by `percent`.
pub uninterp spec fn lightened(color: Rgba, percent: u8) -> Rgba;

/// The colour that `css_colors` gives for `color` made darker by `percent`.
pub uninterp spec fn darkened(color: Rgba, percent: u8) -> Rgba;

/// The colour that `css_colors` gives for `color` mixed with white.
pub uninterp spec fn tinted(color: Rgba, percent: u8) -> Rgba;

/// The colour that `css_colors` gives for `color` mixed with black.
pub uninterp spec fn shaded(color: Rgba, percent: u8) -> Rgba;

/// The colour that `css_colors` gives for `color` mixed with `other`.
pub uninterp spec fn mixed(color: Rgba, other: Rgba, percent: u8) -> Rgba;

/// The opacity that `css_colors` gives after raising `alpha` by `percent`.
pub uninterp spec fn raised_alpha(alpha: u8, percent: u8) -> u8;

/// The opacity that `css_colors` gives after lowering `alpha` by `percent`.
pub uninterp spec fn lowered_alpha(alpha: u8, percent: u8) -> u8;

/// The level of grey that `css_colors` gives for a colour without opacity.
pub uninterp spec fn grey_level(r: u8, g: u8, b: u8) -> u8;

/// The CSS notation that `css_colors` writes for a colour.
pub uninterp spec fn css_text(color: Rgba) -> Seq<char>;

impl Rgba {
    /// The largest of the three colour channels.
    pub open spec fn brightest(self) -> u8 {
        if self.r >= self.g && self.r >= self.b {
            self.r
        } else if self.g >= self.b {
            self.g
        } else {
            self.b
        }
    }

    /// The smallest of the three colour channels.
    pub open spec fn dimmest(self) -> u8 {
        if self.r <= self.g && self.r <= self.b {
            self.r
        } else if self.g <= self.b {
            self.g
        } else {
            self.b
        }
    }

    /// Whether `css_colors` can tell the saturation of the colour.
    ///
    /// For a colour with a channel at 255 it computes
    /// `(1 - m) / (2 - (1 + m))` in single precision, where `m` is the
    /// smallest channel over 255, and stops the program unless the result is
    /// at most 1. The result is the next number above 1 exactly for the odd
    /// channels below 64 and for the channels from 130 on that leave 2 when
    /// divided by 4.
    pub open spec fn has_saturation(self) -> bool {
        let least = self.dimmest();
        !(self.brightest() == 255 && ((least < 64 && least % 2 == 1) || (least >= 130 && least % 4
            == 2)))
    }

    /// Computes [`Self::has_saturation`].
    pub fn saturation_is_defined(&self) -> (defined: bool)
        ensures
            defined == self.has_saturation(),
    {
        let most = if self.r >= self.g && self.r >= self.b {
            self.r
        } else if self.g >= self.b {
            self.g
        } else {
            self.b
        };
        let least = if self.r <= self.g && self.r <= self.b {
            self.r
        } else if self.g <= self.b {
            self.g
        } else {
            self.b
        };
        !(most == 255 && ((least < 64 && least % 2 == 1) || (least >= 130 && least % 4 == 2)))
    }
}

impl Rgba {
    /// The colour in CSS notation, such as `rgba(2, 157, 187, 1.00)`.
    pub fn to_css(&self) -> (text: String)
        ensures
            text@ == css_text(*self),
    {
        to_css(*self)
    }
}

/// Calls `css_color`'s parser, `<Srgb as FromStr>::from_str`, through
/// `str::parse`, and hands out the bit patterns of the four channels that it
/// read. The contract claims that the outcome depends on the text alone and
/// gives it the name [`parsed_color`]; the parser fails on text that is no
/// CSS colour and never stops the program.
#[verifier::external_body]
pub(crate) fn parse_color(text: &str) -> (parsed: Option<(u32, u32, u32, u32)>)
    ensures
        parsed == parsed_color(text@),
{
    match text.parse::<css_color::Srgb>() {
        Ok(color) => Some(
            (
                color.red.to_bits(),
                color.green.to_bits(),
                color.blue.to_bits(),
                color.alpha.to_bits(),
            ),
        ),
        Err(_) => None,
    }
}

/// Calls `css_colors::Color::lighten` on an `RGBA`, with the amount made by
/// `css_colors::percent`. The contract claims that the result depends on the
/// colour and the percentage alone and gives it the name [`lightened`]. The
/// call goes through hue, saturation and lightness, so the saturation must
/// be defined; `percent` stops the program on a percentage above 100.
#[verifier::external_body]
pub(crate) fn lighten(color: Rgba, percent: u8) -> (out: Rgba)
    requires
        percent <= 100,
        color.has_saturation(),
    ensures
        out == lightened(color, percent),
{
    let given = css_colors::RGBA {
        r: css_colors::Ratio::from_u8(color.r),
        g: css_colors::Ratio::from_u8(color.g),
        b: css_colors::Ratio::from_u8(color.b),
        a: css_colors::Ratio::from_u8(color.a),
    };
    let made = css_colors::Color::lighten(given, css_colors::percent(percent));
    Rgba { r: made.r.as_u8(), g: made.g.as_u8(), b: made.b.as_u8(), a: made.a.as_u8() }
}

/// Calls `css_colors::Color::darken` on an `RGBA`, with the amount made by
/// `css_colors::percent`, under the same conditions as [`lighten`]. The
/// contract gives the result the name [`darkened`].
#[verifier::external_body]
pub(crate) fn darken(color: Rgba, percent: u8) -> (out: Rgba)
    requires
        percent <= 100,
        color.has_saturation(),
    ensures
        out == darkened(color, percent),
{
    let given = css_colors::RGBA {
        r: css_colors::Ratio::from_u8(color.r),
        g: css_colors::Ratio::from_u8(color.g),
        b: css_colors::Ratio::from_u8(color.b),
        a: css_colors::Ratio::from_u8(color.a),
    };
    let made = css_colors::Color::darken(given, css_colors::percent(percent));
    Rgba { r: made.r.as_u8(), g: made.g.as_u8(), b: made.b.as_u8(), a: made.a.as_u8() }
}

/// Calls `css_colors::Color::tint` on an `RGBA`: a mix with white, with the
/// weight made by `css_colors::percent`. The contract gives the result the
/// name [`tinted`].
#[verifier::external_body]
pub(crate) fn tint(color: Rgba, percent: u8) -> (out: Rgba)
    requires
        percent <= 100,
    ensures
        out == tinted(color, percent),
{
    let given = css_colors::RGBA {
        r: css_colors::Ratio::from_u8(color.r),
        g: css_colors::Ratio::from_u8(color.g),
        b: css_colors::Ratio::from_u8(color.b),
        a: css_colors::Ratio::from_u8(color.a),
    };
    let made = css_colors::Color::tint(given, css_colors::percent(percent));
    Rgba { r: made.r.as_u8(), g: made.g.as_u8(), b: made.b.as_u8(), a: made.a.as_u8() }
}

/// Calls `css_colors::Color::shade` on an `RGBA`: a mix with black, with the
/// weight made by `css_colors::percent`. The contract gives the result the
/// name [`shaded`].
#[verifier::external_body]
pub(crate) fn shade(color: Rgba, percent: u8) -> (out: Rgba)
    requires
        percent <= 100,
    ensures
        out == shaded(color, percent),
{
    let given = css_colors::RGBA {
        r: css_colors::Ratio::from_u8(color.r),
        g: css_colors::Ratio::from_u8(color.g),
        b: css_colors::Ratio::from_u8(color.b),
        a: css_colors::Ratio::from_u8(color.a),
    };
    let made = css_colors::Color::shade(given, css_colors::percent(percent));
    Rgba { r: made.r.as_u8(), g: made.g.as_u8(), b: made.b.as_u8(), a: made.a.as_u8() }
}

/// Calls `css_colors::Color::mix` on two `RGBA`s, with the weight made by
/// `css_colors::percent`. The contract gives the result the name [`mixed`].
#[verifier::external_body]
pub(crate) fn mix(color: Rgba, other: Rgba, percent: u8) -> (out: Rgba)
    requires
        percent <= 100,
    ensures
        out == mixed(color, other, percent),
{
    let given = css_colors::RGBA {
        r: css_colors::Ratio::from_u8(color.r),
        g: css_colors::Ratio::from_u8(color.g),
        b: css_colors::Ratio::from_u8(color.b),
        a: css_colors::Ratio::from_u8(color.a),
    };
    let with = css_colors::RGBA {
        r: css_colors::Ratio::from_u8(other.r),
        g: css_colors::Ratio::from_u8(other.g),
        b: css_colors::Ratio::from_u8(other.b),
        a: css_colors::Ratio::from_u8(other.a),
    };
    let made = css_colors::Color::mix(given, with, css_colors::percent(percent));
    Rgba { r: made.r.as_u8(), g: made.g.as_u8(), b: made.b.as_u8(), a: made.a.as_u8() }
}

/// Calls `css_colors::Color::fadein` on an `RGBA`, with the amount made by
/// `css_colors::percent`. The contract claims that the three colour channels
/// stay as they are, and gives the new opacity, which depends on the old one
/// and the percentage alone, the name [`raised_alpha`].
#[verifier::external_body]
pub(crate) fn fadein(color: Rgba, percent: u8) -> (out: Rgba)
    requires
        percent <= 100,
    ensures
        out.r == color.r,
        out.g == color.g,
        out.b == color.b,
        out.a == raised_alpha(color.a, percent),
{
    let given = css_colors::RGBA {
        r: css_colors::Ratio::from_u8(color.r),
        g: css_colors::Ratio::from_u8(color.g),
        b: css_colors::Ratio::from_u8(color.b),
        a: css_colors::Ratio::from_u8(color.a),
    };
    let made = css_colors::Color::fadein(given, css_colors::percent(percent));
    Rgba { r: made.r.as_u8(), g: made.g.as_u8(), b: made.b.as_u8(), a: made.a.as_u8() }
}

/// Calls `css_colors::Color::fadeout` on an `RGBA`, with the amount made by
/// `css_colors::percent`. The contract claims that the three colour channels
/// stay as they are, and gives the new opacity, which depends on the old one
/// and the percentage alone, the name [`lowered_alpha`].
#[verifier::external_body]
pub(crate) fn fadeout(color: Rgba, percent: u8) -> (out: Rgba)
    requires
        percent <= 100,
    ensures
        out.r == color.r,
        out.g == color.g,
        out.b == color.b,
        out.a == lowered_alpha(color.a, percent),
{
    let given = css_colors::RGBA {
        r: css_colors::Ratio::from_u8(color.r),
        g: css_colors::Ratio::from_u8(color.g),
        b: css_colors::Ratio::from_u8(color.b),
        a: css_colors::Ratio::from_u8(color.a),
    };
    let made = css_colors::Color::fadeout(given, css_colors::percent(percent));
    Rgba { r: made.r.as_u8(), g: made.g.as_u8(), b: made.b.as_u8(), a: made.a.as_u8() }
}

/// Calls `css_colors::Color::greyscale` on an `RGB` made by
/// `css_colors::rgb`. The contract claims that the three channels of the
/// result are one and the same level, which depends on the colour alone and
/// gets the name [`grey_level`]. The call goes through hue, saturation and
/// lightness, so the saturation must be defined.
#[verifier::external_body]
pub(crate) fn greyscale(r: u8, g: u8, b: u8) -> (grey: (u8, u8, u8))
    requires
        (Rgba { r, g, b, a: 255 }).has_saturation(),
    ensures
        grey.0 == grey_level(r, g, b),
        grey.1 == grey_level(r, g, b),
        grey.2 == grey_level(r, g, b),
{
    let made = css_colors::Color::greyscale(css_colors::rgb(r, g, b));
    (made.r.as_u8(), made.g.as_u8(), made.b.as_u8())
}

/// Calls `css_colors::Color::to_css` on an `RGBA`. The contract claims that
/// the text depends on the colour alone and gives it the name [`css_text`].
#[verifier::external_body]
pub(crate) fn to_css(color: Rgba) -> (text: String)
    ensures
        text@ == css_text(color),
{
    let given = css_colors::RGBA {
        r: css_colors::Ratio::from_u8(color.r),
        g: css_colors::Ratio::from_u8(color.g),
        b: css_colors::Ratio::from_u8(color.b),
        a: css_colors::Ratio::from_u8(color.a),
    };
    css_colors::Color::to_css(given)
}

} // verus!
