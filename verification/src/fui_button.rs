//! The state of a futuristic button: a button whose size is part of its
//! options.

use vstd::prelude::*;
use vstd::string::*;
use crate::listeners::copy_listeners;

verus! {

/// What a futuristic button is told.
#[derive(Clone, Copy, Debug, PartialEq, Eq, Structural)]
pub enum Msg {
    /// The button was clicked.
    Click,
    /// The pointer came over the button.
    HoverIn,
    /// The pointer left the button.
    HoverOut,
    /// The highlight of a click has faded.
    HighlightEnd,
}

/// How a futuristic button looks and behaves.
#[derive(Clone, Copy, Debug, PartialEq, Eq, Structural)]
pub struct Options {
    pub hidden: bool,
    /// A click plays a sound.
    pub sound: bool,
    /// A click shows the highlight colour for a moment.
    pub click_highlights: bool,
    /// The button is slanted to the right.
    pub skewed: bool,
    pub has_corners: bool,
    /// The button reacts to the pointer over it.
    pub has_hover: bool,
    /// The corners move outwards when the button is hovered.
    pub expand_corners: bool,
    pub disabled: bool,
    pub width: Option<u32>,
    pub height: Option<u32>,
}

/// What the owner of a futuristic button has to do after an update.
#[derive(Debug, PartialEq, Eq)]
pub struct Effects {
    /// Whether to play the sound of a click.
    pub play_sound: bool,
    /// The click listeners to notify, in order.
    pub external: Vec<usize>,
}

/// A futuristic button.
#[derive(Debug, PartialEq, Eq)]
pub struct FuiButton {
    pub options: Options,
    pub label: String,
    /// The highlight of a click is on.
    pub click: bool,
    /// The pointer is over the button.
    pub hover: bool,
    /// The click listeners, in the order in which they were added.
    pub click_listeners: Vec<usize>,
}

/// The model of a [`FuiButton`].
pub ghost struct FuiButtonView {
    pub options: Options,
    pub label: Seq<char>,
    pub click: bool,
    pub hover: bool,
    pub click_listeners: Seq<usize>,
}

impl View for FuiButton {
    type V = FuiButtonView;

    open spec fn view(&self) -> FuiButtonView {
        FuiButtonView {
            options: self.options,
            label: self.label@,
            click: self.click,
            hover: self.hover,
            click_listeners: self.click_listeners@,
        }
    }
}

impl Options {
    /// The bare minimum: no effect and no sound.
    pub fn bare() -> (options: Self)
        ensures
            options == (Options {
                sound: false,
                click_highlights: false,
                skewed: false,
                has_corners: false,
                expand_corners: false,
                has_hover: false,
                disabled: false,
                hidden: false,
                width: None,
                height: None,
            }),
    {
        Options {
            sound: false,
            click_highlights: false,
            skewed: false,
            has_corners: false,
            expand_corners: false,
            has_hover: false,
            disabled: false,
            hidden: false,
            width: None,
            height: None,
        }
    }

    /// Every effect, skewed.
    pub fn full() -> (options: Self)
        ensures
            options == (Options {
                sound: true,
                click_highlights: true,
                skewed: true,
                has_corners: true,
                expand_corners: true,
                has_hover: true,
                disabled: false,
                hidden: false,
                width: None,
                height: None,
            }),
    {
        Options {
            sound: true,
            click_highlights: true,
            skewed: true,
            has_corners: true,
            expand_corners: true,
            has_hover: true,
            disabled: false,
            hidden: false,
            width: None,
            height: None,
        }
    }

    /// The regular button: every effect, not skewed.
    pub fn regular() -> (options: Self)
        ensures
            options == (Options {
                sound: true,
                click_highlights: true,
                skewed: false,
                has_corners: true,
                expand_corners: true,
                has_hover: true,
                disabled: false,
                hidden: false,
                width: None,
                height: None,
            }),
    {
        Options {
            sound: true,
            click_highlights: true,
            skewed: false,
            has_corners: true,
            expand_corners: true,
            has_hover: true,
            disabled: false,
            hidden: false,
            width: None,
            height: None,
        }
    }

    /// As the regular button, without sound.
    pub fn muted() -> (options: Self)
        ensures
            options == (Options {
                sound: false,
                click_highlights: true,
                skewed: false,
                has_corners: true,
                expand_corners: true,
                has_hover: true,
                disabled: false,
                hidden: false,
                width: None,
                height: None,
            }),
    {
        Options {
            sound: false,
            click_highlights: true,
            skewed: false,
            has_corners: true,
            expand_corners: true,
            has_hover: true,
            disabled: false,
            hidden: false,
            width: None,
            height: None,
        }
    }

    /// No corners and no hover.
    pub fn simple() -> (options: Self)
        ensures
            options == (Options {
                sound: true,
                click_highlights: true,
                skewed: false,
                has_corners: false,
                expand_corners: false,
                has_hover: false,
                disabled: false,
                hidden: false,
                width: None,
                height: None,
            }),
    {
        Options {
            sound: true,
            click_highlights: true,
            skewed: false,
            has_corners: false,
            expand_corners: false,
            has_hover: false,
            disabled: false,
            hidden: false,
            width: None,
            height: None,
        }
    }

    /// A button that does not react.
    pub fn disabled() -> (options: Self)
        ensures
            options == (Options {
                sound: false,
                click_highlights: false,
                skewed: false,
                has_corners: false,
                expand_corners: false,
                has_hover: false,
                disabled: true,
                hidden: false,
                width: None,
                height: None,
            }),
    {
        Options {
            sound: false,
            click_highlights: false,
            skewed: false,
            has_corners: false,
            expand_corners: false,
            has_hover: false,
            disabled: true,
            hidden: false,
            width: None,
            height: None,
        }
    }

    /// The options, skewed or not.
    pub fn skewed(self, skewed: bool) -> (options: Self)
        ensures
            options == (Options { skewed, ..self }),
    {
        let mut options = self;
        options.skewed = skewed;
        options
    }

    /// The options, hidden or not.
    pub fn hidden(self, hidden: bool) -> (options: Self)
        ensures
            options == (Options { hidden, ..self }),
    {
        let mut options = self;
        options.hidden = hidden;
        options
    }
}

impl FuiButton {
    /// A regular button with the given label and no listener.
    pub fn new_with_label(label: &str) -> (button: Self)
        ensures
            button@ == (FuiButtonView {
                options: (Options {
                    sound: true,
                    click_highlights: true,
                    skewed: false,
                    has_corners: true,
                    expand_corners: true,
                    has_hover: true,
                    disabled: false,
                    hidden: false,
                    width: None,
                    height: None,
                }),
                label: label@,
                click: false,
                hover: false,
                click_listeners: Seq::empty(),
            }),
    {
        let options = Options::regular();
        FuiButton {
            options,
            click: false,
            hover: false,
            label: label.to_owned(),
            click_listeners: Vec::new(),
        }
    }

    /// Handles one message. A click turns the highlight on, asks for the
    /// sound if the options have it, and names every click listener once, in
    /// order. The other messages set or clear one flag and ask for nothing.
    pub fn update(&mut self, msg: Msg) -> (effects: Effects)
        ensures
            final(self)@ == (match msg {
                Msg::Click => FuiButtonView { click: true, ..old(self)@ },
                Msg::HoverIn => FuiButtonView { hover: true, ..old(self)@ },
                Msg::HoverOut => FuiButtonView { hover: false, ..old(self)@ },
                Msg::HighlightEnd => FuiButtonView { click: false, ..old(self)@ },
            }),
            effects.play_sound == (msg == Msg::Click && old(self).options.sound),
            effects.external@ == if msg == Msg::Click {
                old(self)@.click_listeners
            } else {
                Seq::empty()
            },
    {
        match msg {
            Msg::Click => {
                self.click = true;
                Effects {
                    play_sound: self.options.sound,
                    external: copy_listeners(&self.click_listeners),
                }
            },
            Msg::HoverIn => {
                self.hover = true;
                Effects { play_sound: false, external: Vec::new() }
            },
            Msg::HoverOut => {
                self.hover = false;
                Effects { play_sound: false, external: Vec::new() }
            },
            Msg::HighlightEnd => {
                self.click = false;
                Effects { play_sound: false, external: Vec::new() }
            },
        }
    }

    /// Gives the button other options.
    pub fn set_options(&mut self, options: Options)
        ensures
            final(self)@ == (FuiButtonView { options, ..old(self)@ }),
    {
        self.options = options;
    }

    /// Adds a click listener behind the others.
    pub fn add_click_listener(&mut self, listener: usize)
        ensures
            final(self)@ == (FuiButtonView {
                click_listeners: old(self)@.click_listeners.push(listener),
                ..old(self)@
            }),
    {
        self.click_listeners.push(listener);
    }
}

} // verus!
