use futuristic_ui::animate_list::{AnimateList, Effects, Msg};
use futuristic_ui::content::{Attribute, ContentNode};
use futuristic_ui::projector::project;
use futuristic_ui::timing::{
    budget_at, continues, duration_for, AnimationRun, FRAME, MILLISECOND,
};

fn text(value: &str) -> ContentNode {
    ContentNode::Text { value: value.to_string() }
}

fn element(tag: &str, children: Vec<ContentNode>) -> ContentNode {
    ContentNode::Element { tag: tag.to_string(), attributes: vec![], children }
}

fn classed(class: &str, children: Vec<ContentNode>) -> ContentNode {
    ContentNode::Element {
        tag: "div".to_string(),
        attributes: vec![Attribute { name: "class".to_string(), value: class.to_string() }],
        children,
    }
}

/// Runs the ticks of a run every `step` ticks of the clock from `now` on, and
/// returns the budgets' projections, the number of stops, and the time.
fn run_to_the_end(list: &mut AnimateList, first: Vec<Msg>, mut now: u64, step: u64) -> (Vec<ContentNode>, usize, u64) {
    let mut pending = first;
    let mut layers = vec![];
    let mut stops = 0;
    let mut rounds = 0;
    while let Some(msg) = pending.pop() {
        rounds += 1;
        assert!(rounds < 1000, "the run does not end");
        match msg {
            Msg::StopAnimation => {
                stops += 1;
            }
            msg => {
                now += step;
                let effects = list.update(msg, now);
                assert!(effects.external.is_empty());
                layers.push(list.animated_layer().unwrap().clone());
                pending.extend(effects.local);
            }
        }
    }
    (layers, stops, now)
}

#[test]
fn duration_is_capped_at_half_a_second() {
    // 40 units would take 666.7 ms at one unit per frame
    assert_eq!(duration_for(40), 500 * MILLISECOND);
    assert_eq!(duration_for(40), 1_500_000);
    assert_eq!(duration_for(30), 1_500_000);
    assert_eq!(duration_for(100_000), 1_500_000);
    assert_eq!(duration_for(usize::MAX), 1_500_000);
}

#[test]
fn short_content_runs_at_one_unit_per_frame() {
    // 10 units take 166.7 ms
    assert_eq!(duration_for(10), 500_000);
    let millis = duration_for(10) as f64 / MILLISECOND as f64;
    assert!((millis - 1000.0 / 60.0 * 10.0).abs() < 1e-9);
    assert_eq!(duration_for(1), FRAME);
    assert_eq!(duration_for(1), 50_000);
    assert_eq!(duration_for(29), 1_450_000);
    assert_eq!(duration_for(0), 0);
}

#[test]
fn budget_is_the_rounded_share_of_the_units() {
    let run = AnimationRun { is_in: true, start: 1_000, duration: 100_000 };
    assert_eq!(budget_at(run, 1_000, 10), 0);
    assert_eq!(budget_at(run, 1_000 + 4_999, 10), 0);
    assert_eq!(budget_at(run, 1_000 + 5_000, 10), 1);
    assert_eq!(budget_at(run, 1_000 + 14_999, 10), 1);
    assert_eq!(budget_at(run, 1_000 + 15_000, 10), 2);
    assert_eq!(budget_at(run, 1_000 + 50_000, 10), 5);
    assert_eq!(budget_at(run, 1_000 + 94_999, 10), 9);
    assert_eq!(budget_at(run, 1_000 + 95_000, 10), 10);
    assert_eq!(budget_at(run, 1_000 + 100_000, 10), 10);
    assert_eq!(budget_at(run, 1_000 + 900_000, 10), 10);
    assert_eq!(budget_at(run, u64::MAX, usize::MAX), usize::MAX);
}

#[test]
fn budget_of_a_hide_falls_from_all_to_nothing() {
    let run = AnimationRun { is_in: false, start: 1_000, duration: 100_000 };
    assert_eq!(budget_at(run, 1_000, 10), 10);
    assert_eq!(budget_at(run, 1_000 + 5_000, 10), 10);
    assert_eq!(budget_at(run, 1_000 + 5_001, 10), 9);
    assert_eq!(budget_at(run, 1_000 + 50_000, 10), 5);
    assert_eq!(budget_at(run, 1_000 + 95_000, 10), 1);
    assert_eq!(budget_at(run, 1_000 + 95_001, 10), 0);
    assert_eq!(budget_at(run, 1_000 + 100_000, 10), 0);
    assert_eq!(budget_at(run, 1_000 + 100_001, 10), 0);
    let mut last = 10;
    for passed in 0..=110_000u64 {
        let budget = budget_at(run, 1_000 + passed, 10);
        assert!(budget <= last);
        last = budget;
    }
    assert_eq!(last, 0);
}

#[test]
fn clock_that_went_back_counts_as_no_time() {
    let reveal = AnimationRun { is_in: true, start: 1_000, duration: 100_000 };
    let hide = AnimationRun { is_in: false, start: 1_000, duration: 100_000 };
    assert_eq!(budget_at(reveal, 10, 10), 0);
    assert_eq!(budget_at(hide, 10, 10), 10);
}

#[test]
fn budget_agrees_with_floating_point_rounding() {
    let run = AnimationRun { is_in: true, start: 0, duration: 166_666 };
    for now in (0..170_000u64).step_by(7) {
        // exact halves never occur with these numbers
        let exact = (now as f64 * 10.0 / 166_666.0).round() as usize;
        assert_eq!(budget_at(run, now, 10), exact.min(10), "at {}", now);
    }
}

#[test]
fn reveal_goes_on_until_all_is_shown() {
    assert!(continues(true, 0, 5));
    assert!(continues(true, 4, 5));
    assert!(!continues(true, 5, 5));
    assert!(!continues(true, 6, 5));
    assert!(continues(false, 5, 5));
    assert!(continues(false, 1, 5));
    assert!(!continues(false, 0, 5));
}

#[test]
fn new_list_is_at_rest() {
    let list = AnimateList::with_content(text("hello"));
    assert!(!list.is_animating());
    assert_eq!(list.content_len(), 5);
    assert_eq!(list.animated_layer(), None);
    assert_eq!(list.current_run(), None);
    assert!(list.listeners().is_empty());
    assert_eq!(list.children(), &text("hello"));
}

#[test]
fn animate_in_starts_a_reveal() {
    let mut list = AnimateList::with_content(text("hello"));
    let effects = list.update(Msg::AnimateIn, 21_000);
    assert_eq!(
        effects,
        Effects {
            local: vec![Msg::NextAnimation(true, 21_000, 250_000)],
            external: vec![],
            play_sound: true,
        }
    );
    assert!(list.is_animating());
    assert_eq!(list.animated_layer(), None);
    assert_eq!(
        list.current_run(),
        Some(AnimationRun { is_in: true, start: 21_000, duration: 250_000 })
    );
}

#[test]
fn forward_run_completes_once_with_the_full_source() {
    let mut list = AnimateList::with_content(text("hello"));
    list.add_stop_animation_listener(1);
    let start = 3_000_000;
    let first = list.animate_in(start);
    assert_eq!(first, vec![Msg::NextAnimation(true, start, 250_000)]);
    let (layers, stops, _) = run_to_the_end(&mut list, first, start, 50_001);
    assert_eq!(stops, 1);
    // a tick comes with every frame: budgets 1, 2, 3, 4, 5
    let expected: Vec<ContentNode> = (1..=5).map(|budget| project(&text("hello"), budget)).collect();
    assert_eq!(layers, expected);
    assert_eq!(list.animated_layer(), Some(&element("div", vec![text("hello")])));
    // the stop is still to be delivered
    assert!(list.is_animating());
    assert_eq!(list.current_run(), None);
    let effects = list.update(Msg::StopAnimation, start + 300_000);
    assert_eq!(effects, Effects { local: vec![], external: vec![1], play_sound: false });
    assert!(!list.is_animating());
    assert_eq!(list.animated_layer(), Some(&element("div", vec![text("hello")])));
}

#[test]
fn late_tick_completes_at_once() {
    let mut list = AnimateList::with_content(text("hello"));
    let first = list.animate_in(0);
    assert_eq!(first, vec![Msg::NextAnimation(true, 0, 250_000)]);
    let next = list.next_animation(true, 0, 250_000, 250_000 + 1);
    assert_eq!(next, vec![Msg::StopAnimation]);
    assert_eq!(list.animated_layer(), Some(&element("div", vec![text("hello")])));
}

#[test]
fn reverse_run_falls_to_nothing_and_stops() {
    let mut list = AnimateList::with_content(text("hello"));
    let first = list.animate_in(0);
    let (_, stops, now) = run_to_the_end(&mut list, first, 0, 50_001);
    assert_eq!(stops, 1);
    let _ = list.update(Msg::StopAnimation, now);

    let first = list.start_animation(false, now);
    assert_eq!(first, vec![Msg::NextAnimation(false, now, 250_000)]);
    assert!(list.is_animating());
    // a hide begins from what is shown
    assert_eq!(list.animated_layer(), Some(&element("div", vec![text("hello")])));
    let (layers, stops, _) = run_to_the_end(&mut list, first, now, 50_001);
    assert_eq!(stops, 1);
    let expected: Vec<ContentNode> =
        [4usize, 3, 2, 1, 0].iter().map(|budget| project(&text("hello"), *budget)).collect();
    assert_eq!(layers, expected);
    assert_eq!(list.animated_layer(), Some(&element("div", vec![])));
    assert_eq!(list.current_run(), None);
}

#[test]
fn listeners_are_named_in_order_once_per_run() {
    let mut list = AnimateList::with_content(text("hello"));
    list.add_stop_animation_listener(7);
    list.add_stop_animation_listener(3);
    list.add_stop_animation_listener(5);
    assert_eq!(list.listeners(), &vec![7, 3, 5]);
    for round in 0..2u64 {
        let start = round * 3_000_000;
        let first = list.animate_in(start);
        let (_, stops, now) = run_to_the_end(&mut list, first, start, 30_000);
        assert_eq!(stops, 1);
        let effects = list.update(Msg::StopAnimation, now);
        assert_eq!(effects.external, vec![7, 3, 5]);
        assert!(effects.local.is_empty());
    }
}

#[test]
fn listener_added_twice_is_named_twice() {
    let mut list = AnimateList::with_content(text("hello"));
    list.add_stop_animation_listener(4);
    list.add_stop_animation_listener(4);
    let effects = list.update(Msg::StopAnimation, 0);
    assert_eq!(effects.external, vec![4, 4]);
}

#[test]
fn list_without_content_never_starts() {
    let mut list = AnimateList::with_content(text(""));
    list.add_stop_animation_listener(1);
    assert_eq!(list.content_len(), 0);
    let effects = list.update(Msg::AnimateIn, 3_000);
    assert_eq!(effects, Effects { local: vec![], external: vec![], play_sound: true });
    assert!(!list.is_animating());
    assert_eq!(list.current_run(), None);
    assert_eq!(list.start_animation(false, 6_000), vec![]);
    assert!(!list.is_animating());
    // a tick that comes anyway is of no run
    let effects = list.update(Msg::NextAnimation(true, 3_000, 0), 9_000);
    assert_eq!(effects, Effects { local: vec![], external: vec![], play_sound: false });
    assert_eq!(list.animated_layer(), None);
}

#[test]
fn tick_of_a_run_that_was_replaced_is_ignored() {
    let mut list = AnimateList::with_content(text("hello"));
    let old = list.animate_in(0);
    let _ = list.update(Msg::NextAnimation(true, 0, 250_000), 120_000);
    assert!(list.animated_layer().is_some());
    let new = list.animate_in(150_000);
    assert_eq!(new, vec![Msg::NextAnimation(true, 150_000, 250_000)]);
    assert_eq!(list.animated_layer(), None);
    // the tick of the first run arrives late
    let effects = list.update(old[0].clone(), 180_000);
    assert_eq!(effects, Effects { local: vec![], external: vec![], play_sound: false });
    assert_eq!(list.animated_layer(), None);
    assert_eq!(
        list.current_run(),
        Some(AnimationRun { is_in: true, start: 150_000, duration: 250_000 })
    );
    // the tick of the second run is handled
    let effects = list.update(new[0].clone(), 180_000);
    assert_eq!(effects.local, vec![Msg::NextAnimation(true, 150_000, 250_000)]);
    assert_eq!(list.animated_layer(), Some(&project(&text("hello"), 1)));
}

#[test]
fn tick_after_the_run_is_over_is_ignored() {
    let mut list = AnimateList::with_content(text("hello"));
    let _ = list.animate_in(0);
    assert_eq!(list.next_animation(true, 0, 250_000, 270_000), vec![Msg::StopAnimation]);
    assert_eq!(list.next_animation(true, 0, 250_000, 285_000), vec![]);
}

#[test]
fn tick_before_the_start_shows_nothing_and_goes_on() {
    let mut list = AnimateList::with_content(text("hello"));
    let _ = list.animate_in(150_000);
    let next = list.next_animation(true, 150_000, 250_000, 30_000);
    assert_eq!(next, vec![Msg::NextAnimation(true, 150_000, 250_000)]);
    assert_eq!(list.animated_layer(), Some(&element("div", vec![])));
}

#[test]
fn stop_keeps_the_last_projection() {
    let mut list = AnimateList::with_content(text("hello"));
    let _ = list.animate_in(0);
    let _ = list.next_animation(true, 0, 250_000, 100_002);
    let shown = project(&text("hello"), 2);
    assert_eq!(list.animated_layer(), Some(&shown));
    assert_eq!(list.stop_animation(), vec![]);
    assert!(!list.is_animating());
    assert_eq!(list.current_run(), None);
    assert_eq!(list.animated_layer(), Some(&shown));
}

#[test]
fn large_content_is_revealed_within_half_a_second() {
    let long = "x".repeat(1_000);
    let mut list = AnimateList::with_content(text(&long));
    let first = list.animate_in(0);
    assert_eq!(first, vec![Msg::NextAnimation(true, 0, 1_500_000)]);
    let next = list.next_animation(true, 0, 1_500_000, 750_000);
    assert_eq!(next, vec![Msg::NextAnimation(true, 0, 1_500_000)]);
    assert_eq!(list.animated_layer(), Some(&project(&text(&long), 500)));
    let next = list.next_animation(true, 0, 1_500_000, 1_500_000);
    assert_eq!(next, vec![Msg::StopAnimation]);
}

#[test]
fn render_at_rest_shows_the_content_and_a_hidden_layer() {
    let list = AnimateList::with_content(text("hello"));
    let expected = element(
        "div",
        vec![classed(
            "animate_list",
            vec![
                classed("animate_list_children", vec![text("hello")]),
                ContentNode::Comment { value: "hidden".to_string() },
            ],
        )],
    );
    assert_eq!(list.render(), expected);
}

#[test]
fn render_while_animating_shows_the_layer() {
    let mut list = AnimateList::with_content(text("hello"));
    let _ = list.animate_in(0);
    let before_first_tick = element(
        "div",
        vec![classed(
            "animate_list animating",
            vec![
                classed("animate_list_children", vec![text("hello")]),
                classed("animated_layer_wrapper", vec![classed("animated_layer", vec![])]),
            ],
        )],
    );
    assert_eq!(list.render(), before_first_tick);
    let _ = list.next_animation(true, 0, 250_000, 100_002);
    let after_tick = element(
        "div",
        vec![classed(
            "animate_list animating",
            vec![
                classed("animate_list_children", vec![text("hello")]),
                classed(
                    "animated_layer_wrapper",
                    vec![classed(
                        "animated_layer",
                        vec![element("div", vec![text("he"), ContentNode::Caret])],
                    )],
                ),
            ],
        )],
    );
    assert_eq!(list.render(), after_tick);
}
