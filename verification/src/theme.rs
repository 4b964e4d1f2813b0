//! The colours and fonts of a theme, derived from a foreground and a
//! background colour.

use vstd::prelude::*;
use vstd::string::*;
use crate::channel::{channel_from_bits, cut_channel, is_unit, nearest_channel, ratio_from_bits};
use crate::color::{
    Rgba, css_text, darken, darkened, fadein, fadeout, grey_level, greyscale, lighten, lightened,
    lowered_alpha, mix, mixed, parse_color, parsed_color, raised_alpha, shade, shaded, tint, tinted,
    to_css,
};

verus! {

/// The colours and fonts of the components, as CSS text.
#[derive(PartialEq, Eq, Debug)]
pub struct Theme {
    pub primary_color: String,
    pub secondary_color: String,
    pub background_color: String,
    pub accent_color: String,
    pub accent_shadow: String,
    pub primary_font: String,
    pub secondary_font: String,
    pub controls: Controls,
}

/// The colours of controls such as buttons, navigation links and frames.
#[derive(PartialEq, Eq, Debug)]
pub struct Controls {
    pub hover_color: String,
    pub hover_shadow: String,
    pub border_color: String,
    pub corner_color: String,
    pub border_shadow: String,
    pub corner_shadow: String,
    /// The background of frames and buttons.
    pub content_background_color: String,
    /// The colour of text in buttons.
    pub button_text_color: String,
    /// The colour of a button that is clicked.
    pub highlight_color: String,
    /// The colour of text in links.
    pub link_color: String,
}

/// The colours that mark an error, a success, an information and a warning.
#[derive(PartialEq, Eq, Debug)]
pub struct Pallete {
    pub error: Rgba,
    pub success: Rgba,
    pub info: Rgba,
    pub warning: Rgba,
}

/// Why a text gives no colour to derive a theme from.
#[derive(Clone, Copy, PartialEq, Eq, Debug, Structural)]
pub enum ColorError {
    /// The text is no colour in CSS notation.
    NotAColor,
    /// The colour cannot be worked on: its opacity is not between 0 and 1,
    /// or its saturation cannot be told.
    OutOfRange,
}

/// The model of [`Controls`].
pub ghost struct ControlsView {
    pub hover_color: Seq<char>,
    pub hover_shadow: Seq<char>,
    pub border_color: Seq<char>,
    pub corner_color: Seq<char>,
    pub border_shadow: Seq<char>,
    pub corner_shadow: Seq<char>,
    pub content_background_color: Seq<char>,
    pub button_text_color: Seq<char>,
    pub highlight_color: Seq<char>,
    pub link_color: Seq<char>,
}

/// The model of a [`Theme`].
pub ghost struct ThemeView {
    pub primary_color: Seq<char>,
    pub secondary_color: Seq<char>,
    pub background_color: Seq<char>,
    pub accent_color: Seq<char>,
    pub accent_shadow: Seq<char>,
    pub primary_font: Seq<char>,
    pub secondary_font: Seq<char>,
    pub controls: ControlsView,
}

impl View for Controls {
    type V = ControlsView;

    open spec fn view(&self) -> ControlsView {
        ControlsView {
            hover_color: self.hover_color@,
            hover_shadow: self.hover_shadow@,
            border_color: self.border_color@,
            corner_color: self.corner_color@,
            border_shadow: self.border_shadow@,
            corner_shadow: self.corner_shadow@,
            content_background_color: self.content_background_color@,
            button_text_color: self.button_text_color@,
            highlight_color: self.highlight_color@,
            link_color: self.link_color@,
        }
    }
}

impl View for Theme {
    type V = ThemeView;

    open spec fn view(&self) -> ThemeView {
        ThemeView {
            primary_color: self.primary_color@,
            secondary_color: self.secondary_color@,
            background_color: self.background_color@,
            accent_color: self.accent_color@,
            accent_shadow: self.accent_shadow@,
            primary_font: self.primary_font@,
            secondary_font: self.secondary_font@,
            controls: self.controls@,
        }
    }
}

/// The colour that a parsed text stands for: each colour channel is the
/// number times 255 cut to a whole number, and the opacity is the number
/// times 255 rounded to the nearest.
pub open spec fn color_of(text: Seq<char>) -> Result<Rgba, ColorError> {
    match parsed_color(text) {
        None => Err(ColorError::NotAColor),
        Some(bits) => real_rgba(bits),
    }
}

/// The colour with 8-bit channels for four single-precision channels.
pub open spec fn real_rgba(bits: (u32, u32, u32, u32)) -> Result<Rgba, ColorError> {
    if is_unit(bits.3) {
        Ok(
            Rgba {
                r: cut_channel(bits.0) as u8,
                g: cut_channel(bits.1) as u8,
                b: cut_channel(bits.2) as u8,
                a: nearest_channel(bits.3) as u8,
            },
        )
    } else {
        Err(ColorError::OutOfRange)
    }
}

/// Whether `this` is lighter than `other`: its level of grey is higher.
pub open spec fn lighter(this: Rgba, other: Rgba) -> bool {
    grey_level(this.r, this.g, this.b) > grey_level(other.r, other.g, other.b)
}

/// Whether a background asks for the light variant of a theme: it is
/// lighter than the grey in the middle.
pub open spec fn is_light(background: Rgba) -> bool {
    lighter(background, Rgba { r: 128, g: 128, b: 128, a: 255 })
}

/// `color` with its opacity raised by `percent`.
pub open spec fn faded_in(color: Rgba, percent: u8) -> Rgba {
    Rgba { a: raised_alpha(color.a, percent), ..color }
}

/// `color` with its opacity lowered by `percent`.
pub open spec fn faded_out(color: Rgba, percent: u8) -> Rgba {
    Rgba { a: lowered_alpha(color.a, percent), ..color }
}

/// The accent: the foreground mixed with black on a light background, with
/// white on a dark one.
pub open spec fn accent_of(foreground: Rgba, light: bool) -> Rgba {
    if light {
        shaded(foreground, 30)
    } else {
        tinted(foreground, 30)
    }
}

/// The secondary colour: the foreground, darker on a light background and
/// lighter on a dark one.
pub open spec fn secondary_of(foreground: Rgba, light: bool) -> Rgba {
    if light {
        darkened(foreground, 20)
    } else {
        lightened(foreground, 20)
    }
}

/// The colour of text: as the secondary colour, but twice as far from the
/// foreground.
pub open spec fn text_color_of(foreground: Rgba, light: bool) -> Rgba {
    if light {
        darkened(foreground, 40)
    } else {
        lightened(foreground, 40)
    }
}

/// The colour behind everything: the background made lighter when it is
/// light, the foreground made much darker when it is not.
pub open spec fn backdrop_of(foreground: Rgba, background: Rgba, light: bool) -> Rgba {
    if light {
        lightened(background, 60)
    } else {
        darkened(foreground, 60)
    }
}

/// `color`, more opaque where `more` holds and less opaque where it does
/// not.
pub open spec fn faded(color: Rgba, more: bool) -> Rgba {
    if more {
        faded_in(color, 35)
    } else {
        faded_out(color, 35)
    }
}

/// The theme for a foreground on a background.
pub open spec fn theme_of(foreground: Rgba, background: Rgba) -> ThemeView {
    let light = is_light(background);
    let accent = accent_of(foreground, light);
    let secondary = secondary_of(foreground, light);
    ThemeView {
        primary_color: css_text(foreground),
        secondary_color: css_text(secondary),
        background_color: css_text(backdrop_of(foreground, background, light)),
        accent_color: css_text(accent),
        accent_shadow: css_text(faded(accent, !light)),
        primary_font: "\"Titillium Web\", \"sans-serif\""@,
        secondary_font: "\"Electrolize\", \"sans-serif\""@,
        controls: ControlsView {
            hover_color: css_text(secondary),
            hover_shadow: css_text(foreground),
            border_color: css_text(foreground),
            corner_color: css_text(secondary),
            border_shadow: css_text(foreground),
            corner_shadow: css_text(faded(secondary, light)),
            content_background_color: css_text(faded(mixed(foreground, background, 15), light)),
            button_text_color: css_text(text_color_of(foreground, light)),
            highlight_color: css_text(foreground),
            link_color: css_text(accent),
        },
    }
}

/// The theme for two colours in CSS notation, or why there is none: the
/// error of the primary colour, or else of the background, where one of
/// them gives no colour, and [`ColorError::OutOfRange`] where the saturation
/// of one of them cannot be told.
pub open spec fn theme_from(primary: Seq<char>, background: Seq<char>) -> Result<
    ThemeView,
    ColorError,
> {
    match (color_of(primary), color_of(background)) {
        (Ok(foreground), Ok(behind)) => if foreground.has_saturation() && behind.has_saturation() {
            Ok(theme_of(foreground, behind))
        } else {
            Err(ColorError::OutOfRange)
        },
        (Err(error), _) => Err(error),
        (Ok(_), Err(error)) => Err(error),
    }
}

/// The theme that is used where no other is asked for: a bluish foreground,
/// `#029dbb`, on black.
pub open spec fn default_theme() -> ThemeView {
    theme_of(Rgba { r: 2, g: 157, b: 187, a: 255 }, Rgba { r: 0, g: 0, b: 0, a: 255 })
}

/// A text without the `#/` that it begins with, however often.
pub open spec fn without_hash_marks(text: Seq<char>) -> Seq<char>
    decreases text.len(),
{
    if text.len() >= 2 && text[0] == '#' && text[1] == '/' {
        without_hash_marks(text.skip(2))
    } else {
        text
    }
}

/// The place of the first `/` in a text, or the length of a text without.
pub open spec fn first_slash(text: Seq<char>) -> int
    decreases text.len(),
{
    if text.len() == 0 || text[0] == '/' {
        0
    } else {
        1 + first_slash(text.skip(1))
    }
}

/// The theme that the part of an address behind the `#` asks for. After
/// any `#/` at its beginning, the part is cut at each `/`: the first piece
/// is the primary colour and the second the background. With fewer than two
/// pieces, or pieces that give no theme, it is the default theme.
pub open spec fn theme_for_hash(hash: Seq<char>) -> ThemeView {
    let path = without_hash_marks(hash);
    let cut = first_slash(path);
    if cut >= path.len() {
        default_theme()
    } else {
        let rest = path.skip(cut + 1);
        match theme_from(path.take(cut), rest.take(first_slash(rest))) {
            Ok(theme) => theme,
            Err(_) => default_theme(),
        }
    }
}

impl Default for Pallete {
    fn default() -> (pallete: Self)
        ensures
            pallete.error == (Rgba { r: 255, g: 0, b: 0, a: 255 }),
            pallete.success == (Rgba { r: 0, g: 255, b: 0, a: 255 }),
            pallete.info == (Rgba { r: 0, g: 0, b: 255, a: 255 }),
            pallete.warning == (Rgba { r: 255, g: 255, b: 0, a: 255 }),
    {
        Pallete {
            error: Rgba { r: 255, g: 0, b: 0, a: 255 },
            success: Rgba { r: 0, g: 255, b: 0, a: 255 },
            info: Rgba { r: 0, g: 0, b: 255, a: 255 },
            warning: Rgba { r: 255, g: 255, b: 0, a: 255 },
        }
    }
}

impl Rgba {
    /// Whether the colour is lighter than `other`.
    pub fn is_lighter(&self, other: &Self) -> (lighter_than: bool)
        requires
            self.has_saturation(),
            other.has_saturation(),
        ensures
            lighter_than == lighter(*self, *other),
    {
        let this = greyscale(self.r, self.g, self.b);
        let that = greyscale(other.r, other.g, other.b);
        this.0 > that.0
    }
}

/// The colour with 8-bit channels for the four single-precision channels
/// that were read out of a text.
pub fn convert_to_real_rgba(bits: (u32, u32, u32, u32)) -> (color: Result<Rgba, ColorError>)
    ensures
        color == real_rgba(bits),
{
    if bits.3 <= 0x3f80_0000 || bits.3 == 0x8000_0000 {
        Ok(
            Rgba {
                r: channel_from_bits(bits.0),
                g: channel_from_bits(bits.1),
                b: channel_from_bits(bits.2),
                a: ratio_from_bits(bits.3),
            },
        )
    } else {
        Err(ColorError::OutOfRange)
    }
}

/// The colour that a text in CSS notation stands for.
pub fn hex_to_real_rgba(hex: &str) -> (color: Result<Rgba, ColorError>)
    ensures
        color == color_of(hex@),
{
    match parse_color(hex) {
        Some(bits) => convert_to_real_rgba(bits),
        None => Err(ColorError::NotAColor),
    }
}

impl Theme {
    /// The theme for two colours in CSS notation. It fails with the error
    /// of the primary colour, or else of the background, where one of them
    /// gives no colour, and with [`ColorError::OutOfRange`] where the
    /// saturation of one of them cannot be told.
    pub fn from_str(primary: &str, background: &str) -> (theme: Result<Self, ColorError>)
        ensures
            match theme_from(primary@, background@) {
                Ok(view) => theme is Ok && theme->Ok_0@ == view,
                Err(error) => theme == Err::<Self, ColorError>(error),
            },
    {
        let primary = hex_to_real_rgba(primary);
        let background = hex_to_real_rgba(background);
        match primary {
            Ok(foreground) => match background {
                Ok(behind) => if foreground.saturation_is_defined()
                    && behind.saturation_is_defined() {
                    Ok(Self::calculate_theme(foreground, behind))
                } else {
                    Err(ColorError::OutOfRange)
                },
                Err(error) => Err(error),
            },
            Err(error) => Err(error),
        }
    }

    /// The theme that the part of an address behind the `#` asks for, such
    /// as `#/green/black`.
    pub fn calculate_theme_from_url_hash(hash: &str) -> (theme: Self)
        ensures
            theme@ == theme_for_hash(hash@),
    {
        let len = hash.unicode_len();
        let mut begin: usize = 0;
        assert(hash@.skip(0) =~= hash@);
        while len - begin >= 2 && hash.get_char(begin) == '#' && hash.get_char(begin + 1) == '/'
            invariant
                begin <= len,
                len == hash@.len(),
                without_hash_marks(hash@) == without_hash_marks(hash@.skip(begin as int)),
            decreases len - begin,
        {
            assert(hash@.skip(begin as int).skip(2) =~= hash@.skip(begin + 2));
            begin += 2;
        }
        let ghost path = hash@.skip(begin as int);
        assert(without_hash_marks(hash@) == path);
        let mut cut: usize = begin;
        while cut < len && hash.get_char(cut) != '/'
            invariant
                begin <= cut <= len,
                len == hash@.len(),
                path == hash@.skip(begin as int),
                first_slash(path) == (cut - begin) + first_slash(hash@.skip(cut as int)),
            decreases len - cut,
        {
            assert(hash@.skip(cut as int).skip(1) =~= hash@.skip(cut + 1));
            cut += 1;
        }
        if cut >= len {
            assert(first_slash(hash@.skip(cut as int)) == 0);
            return Self::default();
        }
        assert(first_slash(path) == cut - begin);
        let ghost rest = path.skip(cut - begin + 1);
        assert(rest =~= hash@.skip(cut + 1));
        let mut end: usize = cut + 1;
        while end < len && hash.get_char(end) != '/'
            invariant
                cut < end <= len,
                len == hash@.len(),
                rest == hash@.skip(cut + 1),
                first_slash(rest) == (end - cut - 1) + first_slash(hash@.skip(end as int)),
            decreases len - end,
        {
            assert(hash@.skip(end as int).skip(1) =~= hash@.skip(end + 1));
            end += 1;
        }
        assert(first_slash(hash@.skip(end as int)) == 0);
        let primary = hash.substring_char(begin, cut);
        let background = hash.substring_char(cut + 1, end);
        assert(primary@ =~= path.take(cut - begin));
        assert(background@ =~= rest.take(first_slash(rest)));
        match Self::from_str(primary, background) {
            Ok(theme) => theme,
            Err(_) => Self::default(),
        }
    }

    /// The theme on a bluish foreground, `#029dbb`, and a black background.
    pub fn bondi_blue_on_dark() -> (theme: Self)
        ensures
            theme@ == theme_of(
                Rgba { r: 2, g: 157, b: 187, a: 255 },
                Rgba { r: 0, g: 0, b: 0, a: 255 },
            ),
    {
        let primary = Rgba { r: 2, g: 157, b: 187, a: 255 };
        let background = Rgba { r: 0, g: 0, b: 0, a: 255 };
        Self::calculate_theme(primary, background)
    }

    /// The theme of white on black.
    pub fn white_on_dark() -> (theme: Self)
        ensures
            theme@ == theme_of(
                Rgba { r: 255, g: 255, b: 255, a: 255 },
                Rgba { r: 0, g: 0, b: 0, a: 255 },
            ),
    {
        let primary = Rgba { r: 255, g: 255, b: 255, a: 255 };
        let background = Rgba { r: 0, g: 0, b: 0, a: 255 };
        Self::calculate_theme(primary, background)
    }

    /// The theme of green on black.
    pub fn green_on_black() -> (theme: Self)
        ensures
            theme@ == theme_of(
                Rgba { r: 0, g: 255, b: 0, a: 255 },
                Rgba { r: 0, g: 0, b: 0, a: 255 },
            ),
    {
        let primary = Rgba { r: 0, g: 255, b: 0, a: 255 };
        let background = Rgba { r: 0, g: 0, b: 0, a: 255 };
        Self::calculate_theme(primary, background)
    }

    /// The theme of black on white.
    pub fn black_on_white() -> (theme: Self)
        ensures
            theme@ == theme_of(
                Rgba { r: 0, g: 0, b: 0, a: 255 },
                Rgba { r: 255, g: 255, b: 255, a: 255 },
            ),
    {
        Self::calculate_theme(
            Rgba { r: 0, g: 0, b: 0, a: 255 },
            Rgba { r: 255, g: 255, b: 255, a: 255 },
        )
    }

    /// The theme for a foreground on a background. The variant is light if
    /// the background is lighter than the grey in the middle.
    pub fn calculate_theme(foreground: Rgba, background: Rgba) -> (theme: Self)
        requires
            foreground.has_saturation(),
            background.has_saturation(),
        ensures
            theme@ == theme_of(foreground, background),
    {
        let primary_font = "\"Titillium Web\", \"sans-serif\"".to_owned();
        let secondary_font = "\"Electrolize\", \"sans-serif\"".to_owned();

        let grey = Rgba { r: 128, g: 128, b: 128, a: 255 };
        let light = background.is_lighter(&grey);

        let primary = foreground;
        let accent = if light {
            shade(primary, 30)
        } else {
            tint(primary, 30)
        };

        let secondary = if light {
            darken(primary, 20)
        } else {
            lighten(primary, 20)
        };

        let text_colors = if light {
            darken(primary, 40)
        } else {
            lighten(primary, 40)
        };

        let background_color = if light {
            lighten(background, 60)
        } else {
            darken(primary, 60)
        };

        let accent_shadow = if light {
            fadeout(accent, 35)
        } else {
            fadein(accent, 35)
        };

        let corner_shadow = if light {
            fadein(secondary, 35)
        } else {
            fadeout(secondary, 35)
        };

        let content_background_color = if light {
            fadein(mix(primary, background, 15), 35)
        } else {
            fadeout(mix(primary, background, 15), 35)
        };

        Theme {
            primary_color: to_css(primary),
            secondary_color: to_css(secondary),
            background_color: to_css(background_color),
            accent_color: to_css(accent),
            accent_shadow: to_css(accent_shadow),
            primary_font,
            secondary_font,
            controls: Controls {
                hover_shadow: to_css(primary),
                border_color: to_css(primary),
                border_shadow: to_css(primary),
                highlight_color: to_css(primary),
                hover_color: to_css(secondary),
                corner_color: to_css(secondary),
                corner_shadow: to_css(corner_shadow),
                content_background_color: to_css(content_background_color),
                button_text_color: to_css(text_colors),
                link_color: to_css(accent),
            },
        }
    }
}

impl Default for Theme {
    fn default() -> (theme: Self)
        ensures
            theme@ == theme_of(
                Rgba { r: 2, g: 157, b: 187, a: 255 },
                Rgba { r: 0, g: 0, b: 0, a: 255 },
            ),
    {
        Self::bondi_blue_on_dark()
    }
}

} // verus!
