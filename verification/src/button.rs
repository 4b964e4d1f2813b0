//! The state of a button: its options, whether it is hovered or clicked, and
//! whom to tell of a click.

use vstd::prelude::*;
use vstd::string::*;
use crate::listeners::copy_listeners;

verus! {

/// The width of the outline of a chipped button.
pub const DEFAULT_CHIPPED_BUTTON_WIDTH: usize = 200;

/// The height of the outline of a chipped button.
pub const DEFAULT_CHIPPED_BUTTON_HEIGHT: usize = 40;

/// What a button is told.
#[derive(Clone, Copy, Debug, PartialEq, Eq, Structural)]
pub enum Msg {
    /// The button was clicked.
    Click,
    /// The pointer came over the button.
    HoverIn,
    /// The pointer left the button.
    HoverOut,
    /// The highlight of a click has faded.
    HighlightEnd,
}

/// The meaning that a button's colour carries.
#[derive(Clone, Copy, Debug, PartialEq, Eq, Structural)]
pub enum Pallete {
    Error,
    Success,
    Info,
    Warning,
}

/// How a button looks and behaves.
#[derive(Clone, Copy, Debug, PartialEq, Eq, Structural)]
pub struct Options {
    pub hidden: bool,
    /// A click plays a sound.
    pub sound: bool,
    /// A click shows the highlight colour for a moment.
    pub click_highlights: bool,
    /// The button is slanted to the right.
    pub skewed: bool,
    pub has_corners: bool,
    pub has_borders: bool,
    /// The button reacts to the pointer over it.
    pub has_hover: bool,
    /// The corners move outwards when the button is hovered.
    pub expand_corners: bool,
    pub disabled: bool,
    /// The lower right corner of the button is cut off.
    pub chipped: bool,
    /// The meaning of the button's colour, if it has one.
    pub pallete: Option<Pallete>,
}

/// What the owner of a button has to do after an update.
#[derive(Debug, PartialEq, Eq)]
pub struct Effects {
    /// Whether to play the sound of a click.
    pub play_sound: bool,
    /// The click listeners to notify, in order.
    pub external: Vec<usize>,
}

/// A button.
#[derive(Debug, PartialEq, Eq)]
pub struct Button {
    pub options: Options,
    pub label: String,
    /// The highlight of a click is on.
    pub click: bool,
    /// The pointer is over the button.
    pub hover: bool,
    /// The click listeners, in the order in which they were added.
    pub click_listeners: Vec<usize>,
    pub width: Option<usize>,
    pub height: Option<usize>,
}

/// The model of a [`Button`].
pub ghost struct ButtonView {
    pub options: Options,
    pub label: Seq<char>,
    pub click: bool,
    pub hover: bool,
    pub click_listeners: Seq<usize>,
    pub width: Option<usize>,
    pub height: Option<usize>,
}

impl View for Button {
    type V = ButtonView;

    open spec fn view(&self) -> ButtonView {
        ButtonView {
            options: self.options,
            label: self.label@,
            click: self.click,
            hover: self.hover,
            click_listeners: self.click_listeners@,
            width: self.width,
            height: self.height,
        }
    }
}

impl Pallete {
    /// The name of the class that marks the meaning.
    pub open spec fn class_name_text(self) -> Seq<char> {
        match self {
            Pallete::Error => "error"@,
            Pallete::Success => "success"@,
            Pallete::Info => "info"@,
            Pallete::Warning => "warning"@,
        }
    }

    /// The name of the class that marks the meaning.
    pub fn class_name(&self) -> (name: &'static str)
        ensures
            name@ == self.class_name_text(),
    {
        match self {
            Pallete::Error => "error",
            Pallete::Success => "success",
            Pallete::Info => "info",
            Pallete::Warning => "warning",
        }
    }
}

impl Options {
    /// The bare minimum: borders only, no sound.
    pub fn bare() -> (options: Self)
        ensures
            options == (Options {
                sound: false,
                click_highlights: false,
                skewed: false,
                has_corners: false,
                has_borders: true,
                expand_corners: false,
                has_hover: false,
                disabled: false,
                hidden: false,
                chipped: false,
                pallete: None,
            }),
    {
        Options {
            sound: false,
            click_highlights: false,
            skewed: false,
            has_corners: false,
            has_borders: true,
            expand_corners: false,
            has_hover: false,
            disabled: false,
            hidden: false,
            chipped: false,
            pallete: None,
        }
    }

    /// Every effect, not skewed.
    pub fn full() -> (options: Self)
        ensures
            options == (Options {
                sound: true,
                click_highlights: true,
                skewed: false,
                has_corners: true,
                has_borders: true,
                expand_corners: true,
                has_hover: true,
                disabled: false,
                hidden: false,
                chipped: false,
                pallete: None,
            }),
    {
        Options {
            sound: true,
            click_highlights: true,
            skewed: false,
            has_corners: true,
            has_borders: true,
            expand_corners: true,
            has_hover: true,
            disabled: false,
            hidden: false,
            chipped: false,
            pallete: None,
        }
    }

    /// The regular button: every effect, not skewed.
    pub fn regular() -> (options: Self)
        ensures
            options == (Options {
                sound: true,
                click_highlights: true,
                skewed: false,
                has_corners: true,
                has_borders: true,
                expand_corners: true,
                has_hover: true,
                disabled: false,
                hidden: false,
                chipped: false,
                pallete: None,
            }),
    {
        Options {
            sound: true,
            click_highlights: true,
            skewed: false,
            has_corners: true,
            has_borders: true,
            expand_corners: true,
            has_hover: true,
            disabled: false,
            hidden: false,
            chipped: false,
            pallete: None,
        }
    }

    /// As the regular button, without sound.
    pub fn muted() -> (options: Self)
        ensures
            options == (Options {
                sound: false,
                click_highlights: true,
                skewed: false,
                has_corners: true,
                has_borders: true,
                expand_corners: true,
                has_hover: true,
                disabled: false,
                hidden: false,
                chipped: false,
                pallete: None,
            }),
    {
        Options {
            sound: false,
            click_highlights: true,
            skewed: false,
            has_corners: true,
            has_borders: true,
            expand_corners: true,
            has_hover: true,
            disabled: false,
            hidden: false,
            chipped: false,
            pallete: None,
        }
    }

    /// No corners and no hover.
    pub fn simple() -> (options: Self)
        ensures
            options == (Options {
                sound: true,
                click_highlights: true,
                skewed: false,
                has_corners: false,
                has_borders: true,
                expand_corners: false,
                has_hover: false,
                disabled: false,
                hidden: false,
                chipped: false,
                pallete: None,
            }),
    {
        Options {
            sound: true,
            click_highlights: true,
            skewed: false,
            has_corners: false,
            has_borders: true,
            expand_corners: false,
            has_hover: false,
            disabled: false,
            hidden: false,
            chipped: false,
            pallete: None,
        }
    }

    /// A button that does not react.
    pub fn disabled() -> (options: Self)
        ensures
            options == (Options {
                sound: false,
                click_highlights: false,
                skewed: false,
                has_corners: false,
                has_borders: true,
                expand_corners: false,
                has_hover: false,
                disabled: true,
                hidden: false,
                chipped: false,
                pallete: None,
            }),
    {
        Options {
            sound: false,
            click_highlights: false,
            skewed: false,
            has_corners: false,
            has_borders: true,
            expand_corners: false,
            has_hover: false,
            disabled: true,
            hidden: false,
            chipped: false,
            pallete: None,
        }
    }
}

/// The outline of a chipped button: a rectangle of the default size whose
/// lower right corner is cut off, from the lower left corner on.
pub open spec fn chipped_outline() -> Seq<(usize, usize)> {
    seq![
        (0usize, 40usize),
        (180usize, 40usize),
        (200usize, 20usize),
        (200usize, 0usize),
        (0usize, 0usize),
    ]
}

/// The triangle that sits in the cut-off corner of a chipped button, a gap
/// away from the outline.
pub open spec fn chipped_corner() -> Seq<(usize, usize)> {
    seq![(184usize, 40usize), (200usize, 24usize), (200usize, 40usize)]
}

impl Button {
    /// A regular button with the given label and no listener.
    pub fn with_label(label: &str) -> (button: Self)
        ensures
            button@ == (ButtonView {
                options: (Options {
                    sound: true,
                    click_highlights: true,
                    skewed: false,
                    has_corners: true,
                    has_borders: true,
                    expand_corners: true,
                    has_hover: true,
                    disabled: false,
                    hidden: false,
                    chipped: false,
                    pallete: None,
                }),
                label: label@,
                click: false,
                hover: false,
                click_listeners: Seq::empty(),
                width: None,
                height: None,
            }),
    {
        let options = Options::regular();
        Button {
            options,
            click: false,
            hover: false,
            label: label.to_owned(),
            click_listeners: Vec::new(),
            width: None,
            height: None,
        }
    }

    /// The corner points of the two shapes of a chipped button: its outline
    /// and the triangle in its cut-off corner.
    pub fn chipped_points() -> (shapes: (Vec<(usize, usize)>, Vec<(usize, usize)>))
        ensures
            shapes.0@ == chipped_outline(),
            shapes.1@ == chipped_corner(),
    {
        let width = DEFAULT_CHIPPED_BUTTON_WIDTH;
        let height = DEFAULT_CHIPPED_BUTTON_HEIGHT;
        let (chip_width, chip_height): (usize, usize) = (20, 20);
        let (gap_x, gap_y): (usize, usize) = (4, 4);
        let top_left: (usize, usize) = (0, 0);
        let top_right: (usize, usize) = (width, 0);
        let bottom_left: (usize, usize) = (0, height);
        let chip1 = (width - chip_width, height);
        let chip2 = (width, height - chip_height);

        let poly_points = vec![bottom_left, chip1, chip2, top_right, top_left];

        let bottom_right = (width, height);
        let tri_edge1 = (width - chip_width + gap_x, height);
        let tri_edge2 = (width, height - chip_height + gap_y);
        let triangle = vec![tri_edge1, tri_edge2, bottom_right];
        assert(poly_points@ =~= chipped_outline());
        assert(triangle@ =~= chipped_corner());
        (poly_points, triangle)
    }

    /// Handles one message. A click turns the highlight on, asks for the
    /// sound if the options have it, and names every click listener once, in
    /// order. The other messages set or clear one flag and ask for nothing.
    pub fn update(&mut self, msg: Msg) -> (effects: Effects)
        ensures
            final(self)@ == (match msg {
                Msg::Click => ButtonView { click: true, ..old(self)@ },
                Msg::HoverIn => ButtonView { hover: true, ..old(self)@ },
                Msg::HoverOut => ButtonView { hover: false, ..old(self)@ },
                Msg::HighlightEnd => ButtonView { click: false, ..old(self)@ },
            }),
            effects.play_sound == (msg == Msg::Click && old(self).options.sound),
            effects.external@ == if msg == Msg::Click {
                old(self)@.click_listeners
            } else {
                Seq::empty()
            },
    {
        match msg {
            Msg::Click => {
                self.click = true;
                Effects {
                    play_sound: self.options.sound,
                    external: copy_listeners(&self.click_listeners),
                }
            },
            Msg::HoverIn => {
                self.hover = true;
                Effects { play_sound: false, external: Vec::new() }
            },
            Msg::HoverOut => {
                self.hover = false;
                Effects { play_sound: false, external: Vec::new() }
            },
            Msg::HighlightEnd => {
                self.click = false;
                Effects { play_sound: false, external: Vec::new() }
            },
        }
    }

    /// The button with other options.
    pub fn with_options(self, options: Options) -> (button: Self)
        ensures
            button@ == (ButtonView { options, ..self@ }),
    {
        let mut button = self;
        button.options = options;
        button
    }

    /// The button with a width.
    pub fn width(self, width: usize) -> (button: Self)
        ensures
            button@ == (ButtonView { width: Some(width), ..self@ }),
    {
        let mut button = self;
        button.width = Some(width);
        button
    }

    /// The button with a height.
    pub fn height(self, height: usize) -> (button: Self)
        ensures
            button@ == (ButtonView { height: Some(height), ..self@ }),
    {
        let mut button = self;
        button.height = Some(height);
        button
    }

    /// The button in the colour of an error.
    pub fn error(self) -> (button: Self)
        ensures
            button@ == (ButtonView {
                options: (Options { pallete: Some(Pallete::Error), ..self.options }),
                ..self@
            }),
    {
        let mut button = self;
        button.options.pallete = Some(Pallete::Error);
        button
    }

    /// The button in the colour of a success.
    pub fn success(self) -> (button: Self)
        ensures
            button@ == (ButtonView {
                options: (Options { pallete: Some(Pallete::Success), ..self.options }),
                ..self@
            }),
    {
        let mut button = self;
        button.options.pallete = Some(Pallete::Success);
        button
    }

    /// The button in the colour of an information.
    pub fn info(self) -> (button: Self)
        ensures
            button@ == (ButtonView {
                options: (Options { pallete: Some(Pallete::Info), ..self.options }),
                ..self@
            }),
    {
        let mut button = self;
        button.options.pallete = Some(Pallete::Info);
        button
    }

    /// The button in the colour of a warning.
    pub fn warning(self) -> (button: Self)
        ensures
            button@ == (ButtonView {
                options: (Options { pallete: Some(Pallete::Warning), ..self.options }),
                ..self@
            }),
    {
        let mut button = self;
        button.options.pallete = Some(Pallete::Warning);
        button
    }

    /// The button with one more click listener, behind the others.
    pub fn add_click_listener(self, listener: usize) -> (button: Self)
        ensures
            button@ == (ButtonView {
                click_listeners: self@.click_listeners.push(listener),
                ..self@
            }),
    {
        let mut button = self;
        button.click_listeners.push(listener);
        button
    }

    /// The button, skewed.
    pub fn skewed(self) -> (button: Self)
        ensures
            button@ == (ButtonView {
                options: (Options { skewed: true, ..self.options }),
                ..self@
            }),
    {
        let mut button = self;
        button.options.skewed = true;
        button
    }

    /// The button, chipped: with hover, corners that expand and a highlight,
    /// and without borders.
    pub fn chipped(self) -> (button: Self)
        ensures
            button@ == (ButtonView {
                options: (Options {
                    chipped: true,
                    has_hover: true,
                    has_borders: false,
                    has_corners: true,
                    expand_corners: true,
                    click_highlights: true,
                    ..self.options
                }),
                ..self@
            }),
    {
        let mut button = self;
        button.options.chipped = true;
        button.options.has_hover = true;
        button.options.has_borders = false;
        button.options.has_corners = true;
        button.options.expand_corners = true;
        button.options.click_highlights = true;
        button
    }
}

} // verus!
