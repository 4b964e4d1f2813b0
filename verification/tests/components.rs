use futuristic_ui::animate_list::Msg as ListMsg;
use futuristic_ui::button::{Button, Effects as ButtonEffects, Msg as ButtonMsg, Options, Pallete};
use futuristic_ui::content::ContentNode;
use futuristic_ui::frame::{Effects as FrameEffects, Frame, Msg as FrameMsg};
use futuristic_ui::fui_button::{
    Effects as FuiEffects, FuiButton, Msg as FuiMsg, Options as FuiOptions,
};
use futuristic_ui::image::{Effects as ImageOut, Image, Msg as ImageMsg, Shown};
use futuristic_ui::image_effects::{Effects as SliceEffects, ImageEffects, Msg as SliceMsg};
use futuristic_ui::nav_header::{Effects as HeaderEffects, Msg as HeaderMsg, NavHeader};
use futuristic_ui::paragraph::{Effects as ParagraphEffects, Msg as ParagraphMsg, Paragraph};
use futuristic_ui::theme::Theme;
use futuristic_ui::timing::{under_way, AnimationRun, MILLISECOND, UNFOLD_TIME};

fn text(value: &str) -> ContentNode {
    ContentNode::Text { value: value.to_string() }
}

fn element(tag: &str, children: Vec<ContentNode>) -> ContentNode {
    ContentNode::Element { tag: tag.to_string(), attributes: vec![], children }
}

#[test]
fn button_options_presets() {
    let regular = Options::regular();
    assert!(regular.sound && regular.click_highlights && regular.has_corners);
    assert!(regular.has_borders && regular.has_hover && regular.expand_corners);
    assert!(!regular.skewed && !regular.disabled && !regular.hidden && !regular.chipped);
    assert_eq!(regular.pallete, None);
    assert_eq!(Options::full(), regular);
    assert_eq!(Options::muted(), Options { sound: false, ..regular });
    assert_eq!(
        Options::simple(),
        Options { has_corners: false, expand_corners: false, has_hover: false, ..regular }
    );
    let bare = Options::bare();
    assert_eq!(
        bare,
        Options {
            sound: false,
            click_highlights: false,
            has_corners: false,
            expand_corners: false,
            has_hover: false,
            ..regular
        }
    );
    assert_eq!(Options::disabled(), Options { disabled: true, ..bare });
}

#[test]
fn button_builders_change_one_thing() {
    let button = Button::with_label("Welcome");
    assert_eq!(button.label, "Welcome");
    assert_eq!(button.options, Options::regular());
    assert!(!button.click && !button.hover);
    assert_eq!((button.width, button.height), (None, None));
    let button = button.width(400).height(100).add_click_listener(3).with_options(Options::full());
    assert_eq!((button.width, button.height), (Some(400), Some(100)));
    assert_eq!(button.click_listeners, vec![3]);
    assert_eq!(Button::with_label("x").skewed().options, Options { skewed: true, ..Options::regular() });
    assert_eq!(Button::with_label("x").error().options.pallete, Some(Pallete::Error));
    assert_eq!(Button::with_label("x").success().options.pallete, Some(Pallete::Success));
    assert_eq!(Button::with_label("x").info().options.pallete, Some(Pallete::Info));
    assert_eq!(Button::with_label("x").warning().options.pallete, Some(Pallete::Warning));
    let chipped = Button::with_label("x").with_options(Options::bare()).chipped().error();
    assert_eq!(
        chipped.options,
        Options {
            chipped: true,
            has_hover: true,
            has_borders: false,
            has_corners: true,
            expand_corners: true,
            click_highlights: true,
            pallete: Some(Pallete::Error),
            ..Options::bare()
        }
    );
}

#[test]
fn pallete_class_names() {
    assert_eq!(Pallete::Error.class_name(), "error");
    assert_eq!(Pallete::Success.class_name(), "success");
    assert_eq!(Pallete::Info.class_name(), "info");
    assert_eq!(Pallete::Warning.class_name(), "warning");
}

#[test]
fn button_click_names_listeners_and_asks_for_sound() {
    let mut button = Button::with_label("ok").add_click_listener(8).add_click_listener(2);
    let effects = button.update(ButtonMsg::Click);
    assert_eq!(effects, ButtonEffects { play_sound: true, external: vec![8, 2] });
    assert!(button.click);
    let effects = button.update(ButtonMsg::HighlightEnd);
    assert_eq!(effects, ButtonEffects { play_sound: false, external: vec![] });
    assert!(!button.click);
    let effects = button.update(ButtonMsg::HoverIn);
    assert_eq!(effects, ButtonEffects { play_sound: false, external: vec![] });
    assert!(button.hover);
    button.update(ButtonMsg::HoverOut);
    assert!(!button.hover);

    let mut muted = Button::with_label("ok").with_options(Options::muted()).add_click_listener(1);
    let effects = muted.update(ButtonMsg::Click);
    assert_eq!(effects, ButtonEffects { play_sound: false, external: vec![1] });
}

#[test]
fn chipped_button_outline() {
    let (outline, corner) = Button::chipped_points();
    assert_eq!(outline, vec![(0, 40), (180, 40), (200, 20), (200, 0), (0, 0)]);
    assert_eq!(corner, vec![(184, 40), (200, 24), (200, 40)]);
}

#[test]
fn fui_button_options_presets() {
    let regular = FuiOptions::regular();
    assert!(regular.sound && regular.click_highlights && regular.has_corners);
    assert!(regular.has_hover && regular.expand_corners);
    assert!(!regular.skewed && !regular.disabled && !regular.hidden);
    assert_eq!((regular.width, regular.height), (None, None));
    assert_eq!(FuiOptions::full(), FuiOptions { skewed: true, ..regular });
    assert_eq!(FuiOptions::muted(), FuiOptions { sound: false, ..regular });
    assert_eq!(
        FuiOptions::simple(),
        FuiOptions { has_corners: false, expand_corners: false, has_hover: false, ..regular }
    );
    let bare = FuiOptions::bare();
    assert!(!bare.sound && !bare.click_highlights && !bare.has_corners && !bare.has_hover);
    assert_eq!(FuiOptions::disabled(), FuiOptions { disabled: true, ..bare });
    assert_eq!(regular.skewed(true).hidden(true), FuiOptions { skewed: true, hidden: true, ..regular });
    assert_eq!(regular.skewed(true).skewed(false), regular);
}

#[test]
fn fui_button_click_names_listeners() {
    let mut button = FuiButton::new_with_label("go");
    assert_eq!(button.label, "go");
    assert_eq!(button.options, FuiOptions::regular());
    button.add_click_listener(5);
    button.add_click_listener(6);
    assert_eq!(button.update(FuiMsg::Click), FuiEffects { play_sound: true, external: vec![5, 6] });
    assert!(button.click);
    button.set_options(FuiOptions::muted());
    assert_eq!(button.update(FuiMsg::Click), FuiEffects { play_sound: false, external: vec![5, 6] });
    assert_eq!(button.update(FuiMsg::HoverIn), FuiEffects { play_sound: false, external: vec![] });
    assert!(button.hover);
    button.update(FuiMsg::HoverOut);
    button.update(FuiMsg::HighlightEnd);
    assert!(!button.hover && !button.click);
}

#[test]
fn time_under_way() {
    assert!(under_way(1_000, 200_000, 1_000));
    assert!(under_way(1_000, 200_000, 200_999));
    assert!(!under_way(1_000, 200_000, 201_000));
    assert!(!under_way(1_000, 200_000, 500_000));
    // a clock that went back
    assert!(under_way(1_000, 200_000, 0));
    assert!(under_way(1_000, 0, 0));
    assert!(!under_way(1_000, 0, 1_000));
    assert_eq!(UNFOLD_TIME, 200 * MILLISECOND);
    assert_eq!(UNFOLD_TIME, 600_000);
}

#[test]
fn frame_folds_away_for_a_fifth_of_a_second() {
    let mut frame = Frame::with_content("inside");
    assert_eq!(frame, Frame { hide: false, hover: false, content: "inside" });
    let effects: FrameEffects<u8> = frame.update(FrameMsg::AnimateIn, 15_000);
    assert_eq!(
        effects,
        FrameEffects {
            local: vec![FrameMsg::NextAnimation(15_000, 600_000)],
            external: vec![],
            play_sound: true,
        }
    );
    assert!(frame.hide);
    let effects: FrameEffects<u8> = frame.update(FrameMsg::NextAnimation(15_000, 600_000), 300_000);
    assert_eq!(effects.local, vec![FrameMsg::NextAnimation(15_000, 600_000)]);
    assert!(frame.hide);
    let effects: FrameEffects<u8> = frame.update(FrameMsg::NextAnimation(15_000, 600_000), 615_000);
    assert_eq!(
        effects,
        FrameEffects { local: vec![FrameMsg::StopAnimation], external: vec![], play_sound: false }
    );
    let effects: FrameEffects<u8> = frame.update(FrameMsg::StopAnimation, 618_000);
    assert_eq!(effects, FrameEffects { local: vec![], external: vec![], play_sound: false });
    assert!(!frame.hide);
}

#[test]
fn frame_hands_on_messages_of_its_content() {
    let mut frame = Frame::with_content(1u32);
    let effects = frame.update(FrameMsg::External("clicked"), 0);
    assert_eq!(effects, FrameEffects { local: vec![], external: vec!["clicked"], play_sound: false });
    let _: FrameEffects<u8> = frame.update(FrameMsg::HoverIn, 0);
    assert_eq!(frame, Frame { hide: false, hover: true, content: 1 });
    frame.set_content(2);
    let _: FrameEffects<u8> = frame.update(FrameMsg::HoverOut, 0);
    assert_eq!(frame, Frame { hide: false, hover: false, content: 2 });
}

#[test]
fn nav_header_folds_away_for_a_fifth_of_a_second() {
    let mut header = NavHeader::with_content("Navigation Header");
    assert_eq!(header, NavHeader { hide: false, content: "Navigation Header".to_string() });
    let effects = header.update(HeaderMsg::AnimateIn, 27_000);
    assert_eq!(
        effects,
        HeaderEffects { local: vec![HeaderMsg::NextAnimation(27_000, 600_000)], play_sound: true }
    );
    assert!(header.hide);
    let effects = header.update(HeaderMsg::NextAnimation(27_000, 600_000), 626_997);
    assert_eq!(effects.local, vec![HeaderMsg::NextAnimation(27_000, 600_000)]);
    let effects = header.update(HeaderMsg::NextAnimation(27_000, 600_000), 627_000);
    assert_eq!(effects, HeaderEffects { local: vec![HeaderMsg::StopAnimation], play_sound: false });
    assert!(header.hide);
    let effects = header.update(HeaderMsg::StopAnimation, 628_500);
    assert_eq!(effects, HeaderEffects { local: vec![], play_sound: false });
    assert!(!header.hide);
    assert_eq!(header.content, "Navigation Header");
}

#[test]
fn paragraph_forwards_to_its_list() {
    let mut paragraph = Paragraph::with_content(text("hello"));
    paragraph.add_stop_animation_listener(11);
    let effects = paragraph.update(ParagraphMsg::AnimateIn, 3_000);
    assert_eq!(
        effects,
        ParagraphEffects {
            local: vec![ParagraphMsg::AnimateListMsg(ListMsg::NextAnimation(true, 3_000, 250_000))],
            external: vec![],
            play_sound: true,
        }
    );
    let tick = ParagraphMsg::AnimateListMsg(ListMsg::NextAnimation(true, 3_000, 250_000));
    let effects = paragraph.update(tick, 270_000);
    assert_eq!(
        effects,
        ParagraphEffects {
            local: vec![ParagraphMsg::AnimateListMsg(ListMsg::StopAnimation)],
            external: vec![],
            play_sound: false,
        }
    );
    let effects = paragraph.update(ParagraphMsg::AnimateListMsg(ListMsg::StopAnimation), 273_000);
    assert_eq!(effects, ParagraphEffects { local: vec![], external: vec![11], play_sound: false });
    let shown = paragraph.render();
    match shown {
        ContentNode::Element { tag, attributes, children } => {
            assert_eq!(tag, "p");
            assert!(attributes.is_empty());
            assert_eq!(children.len(), 1);
        }
        _ => panic!("a paragraph is an element"),
    }
}

#[test]
fn image_effects_turn_the_stop_into_animation_done() {
    let slices = element("div", vec![element("div", vec![]), element("div", vec![])]);
    let mut image = ImageEffects::new(slices);
    assert!(!image.is_animating());
    assert_eq!(image.animate_list().listeners(), &vec![0]);
    assert_eq!(image.animate_list().content_len(), 3);
    let effects = image.update(SliceMsg::AnimateIn, 0);
    assert_eq!(
        effects,
        SliceEffects {
            local: vec![SliceMsg::AnimateListMsg(ListMsg::NextAnimation(true, 0, 150_000))],
            play_sound: true,
        }
    );
    assert!(image.is_animating());
    let effects =
        image.update(SliceMsg::AnimateListMsg(ListMsg::NextAnimation(true, 0, 150_000)), 180_000);
    assert_eq!(
        effects,
        SliceEffects { local: vec![SliceMsg::AnimateListMsg(ListMsg::StopAnimation)], play_sound: false }
    );
    let effects = image.update(SliceMsg::AnimateListMsg(ListMsg::StopAnimation), 183_000);
    assert_eq!(effects, SliceEffects { local: vec![SliceMsg::AnimationDone], play_sound: false });
    assert!(image.is_animating());
    let effects = image.update(SliceMsg::AnimationDone, 186_000);
    assert_eq!(effects, SliceEffects { local: vec![], play_sound: false });
    assert!(!image.is_animating());
}

#[test]
fn image_is_cut_into_24_by_15_slices() {
    let image = Image::new("img/space.jpg");
    assert_eq!(image.properties.url(), "img/space.jpg");
    assert_eq!(image.properties.size(), (1000, 600));
    assert_eq!(image.properties.slice_size_and_gap(), (40, 1));
    // 1000 / 41 = 24.4 and 600 / 41 = 14.6
    assert_eq!(image.properties.slices(), (24, 15));
    assert_eq!(image.content_len(), 360);
    assert_eq!(image.frame, Frame { hide: false, hover: false, content: Shown::Slices(None) });
    assert!(!image.is_animating);
}

#[test]
fn image_slices_are_placed_row_by_row() {
    let image = Image::new("img/space.jpg");
    let all = image.properties.cells(None);
    assert_eq!(all.len(), 360);
    assert_eq!(all[0], (0, 0));
    assert_eq!(all[1], (41, 0));
    assert_eq!(all[23], (943, 0));
    assert_eq!(all[24], (0, 41));
    assert_eq!(all[359], (943, 574));
    assert_eq!(image.properties.cells(Some(0)), vec![]);
    assert_eq!(image.properties.cells(Some(3)), vec![(0, 0), (41, 0), (82, 0)]);
    assert_eq!(image.properties.cells(Some(26)), all[..26].to_vec());
    assert_eq!(image.properties.cells(Some(360)), all);
    assert_eq!(image.properties.cells(Some(1_000)), all);
}

#[test]
fn image_reveals_its_slices_and_shows_the_picture_at_the_end() {
    let mut image = Image::new("img/space.jpg");
    let effects = image.update(ImageMsg::AnimateIn, 3_000);
    assert_eq!(
        effects,
        ImageOut {
            local: vec![ImageMsg::NextAnimation(true, 3_000, 1_500_000)],
            play_sound: true,
            play_frame_sound: false,
        }
    );
    assert!(image.is_animating);
    assert_eq!(image.run, Some(AnimationRun { is_in: true, start: 3_000, duration: 1_500_000 }));
    let effects = image.update(ImageMsg::NextAnimation(true, 3_000, 1_500_000), 753_000);
    assert_eq!(effects.local, vec![ImageMsg::NextAnimation(true, 3_000, 1_500_000)]);
    assert_eq!(image.frame.content, Shown::Slices(Some(180)));
    // a tick of another run
    let effects = image.update(ImageMsg::NextAnimation(true, 7, 1_500_000), 1_200_000);
    assert_eq!(effects.local, vec![]);
    assert_eq!(image.frame.content, Shown::Slices(Some(180)));
    let effects = image.update(ImageMsg::NextAnimation(true, 3_000, 1_500_000), 1_503_000);
    assert_eq!(effects.local, vec![ImageMsg::StopAnimation]);
    assert_eq!(image.frame.content, Shown::Slices(Some(180)));
    assert_eq!(image.run, None);
    let effects = image.update(ImageMsg::StopAnimation, 1_506_000);
    assert_eq!(effects, ImageOut { local: vec![], play_sound: false, play_frame_sound: false });
    assert!(!image.is_animating);
    assert_eq!(image.frame.content, Shown::Picture);
    let effects = image.update(ImageMsg::AnimationDone, 1_509_000);
    assert_eq!(effects, ImageOut { local: vec![], play_sound: false, play_frame_sound: false });
}

#[test]
fn image_hands_frame_messages_to_its_frame() {
    let mut image = Image::new("img/space.jpg");
    let effects = image.update(ImageMsg::FrameMsg(Box::new(FrameMsg::AnimateIn)), 6_000);
    assert_eq!(
        effects,
        ImageOut {
            local: vec![ImageMsg::FrameMsg(Box::new(FrameMsg::NextAnimation(6_000, 600_000)))],
            play_sound: false,
            play_frame_sound: true,
        }
    );
    assert!(image.frame.hide);
    let inner = FrameMsg::External(ImageMsg::AnimateIn);
    let effects = image.update(ImageMsg::FrameMsg(Box::new(inner)), 9_000);
    assert_eq!(effects.local, vec![ImageMsg::AnimateIn]);
    let effects = image.update(ImageMsg::FrameMsg(Box::new(FrameMsg::HoverIn)), 9_000);
    assert_eq!(effects.local, vec![]);
    assert!(image.frame.hover);
    let tick = ImageMsg::FrameMsg(Box::new(FrameMsg::NextAnimation(6_000, 600_000)));
    let effects = image.update(tick, 900_000);
    assert_eq!(effects.local, vec![ImageMsg::FrameMsg(Box::new(FrameMsg::StopAnimation))]);
    let effects = image.update(ImageMsg::FrameMsg(Box::new(FrameMsg::StopAnimation)), 900_000);
    assert_eq!(effects.local, vec![]);
    assert!(!image.frame.hide);
}

#[test]
fn theme_from_url_hash() {
    assert_eq!(Theme::calculate_theme_from_url_hash("#/white/black"), Theme::white_on_dark());
    assert_eq!(Theme::calculate_theme_from_url_hash("#/black/white"), Theme::black_on_white());
    assert_eq!(Theme::calculate_theme_from_url_hash("black/white"), Theme::black_on_white());
    assert_eq!(Theme::calculate_theme_from_url_hash("#/#/black/white/red"), Theme::black_on_white());
    assert_eq!(
        Theme::calculate_theme_from_url_hash("#/#00ff00/#000"),
        Theme::green_on_black()
    );
    assert_eq!(
        Theme::calculate_theme_from_url_hash("#/rgb(0, 255, 0)/hsl(0, 0%, 0%)/x"),
        Theme::green_on_black()
    );
}

#[test]
fn url_hash_without_two_colors_gives_the_default_theme() {
    let default = Theme::default();
    assert_eq!(Theme::calculate_theme_from_url_hash(""), default);
    assert_eq!(Theme::calculate_theme_from_url_hash("#"), default);
    assert_eq!(Theme::calculate_theme_from_url_hash("#/"), default);
    assert_eq!(Theme::calculate_theme_from_url_hash("#/white"), default);
    assert_eq!(Theme::calculate_theme_from_url_hash("#/white/"), default);
    assert_eq!(Theme::calculate_theme_from_url_hash("#//black"), default);
    assert_eq!(Theme::calculate_theme_from_url_hash("#/white/nonsense"), default);
    assert_eq!(Theme::calculate_theme_from_url_hash("#/nonsense/white"), default);
    assert_eq!(Theme::calculate_theme_from_url_hash("/white/black"), default);
    assert_eq!(Theme::calculate_theme_from_url_hash("#readmore"), default);
    // a colour whose saturation cannot be told
    assert_eq!(Theme::calculate_theme_from_url_hash("#/#ff0101/black"), default);
}
