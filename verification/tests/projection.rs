use futuristic_ui::content::{Attribute, ContentNode};
use futuristic_ui::projector::{include_node, include_node_recursive, project};

fn text(value: &str) -> ContentNode {
    ContentNode::Text { value: value.to_string() }
}

fn element(tag: &str, children: Vec<ContentNode>) -> ContentNode {
    ContentNode::Element { tag: tag.to_string(), attributes: vec![], children }
}

fn container(children: Vec<ContentNode>) -> ContentNode {
    element("div", children)
}

/// `<div><p>hello</p><p>world</p></div>`: 13 units.
fn two_paragraphs() -> ContentNode {
    element("div", vec![element("p", vec![text("hello")]), element("p", vec![text("world")])])
}

fn caret_count(node: &ContentNode) -> usize {
    match node {
        ContentNode::Caret => 1,
        ContentNode::Element { children, .. } => children.iter().map(caret_count).sum(),
        _ => 0,
    }
}

fn without_closing_caret(nodes: &[ContentNode]) -> &[ContentNode] {
    match nodes.last() {
        Some(ContentNode::Caret) => &nodes[..nodes.len() - 1],
        _ => nodes,
    }
}

fn is_tree_prefix(part: &ContentNode, whole: &ContentNode) -> bool {
    match (part, whole) {
        (
            ContentNode::Element { tag, attributes, children },
            ContentNode::Element { tag: tag2, attributes: attributes2, children: children2 },
        ) => tag == tag2 && attributes == attributes2 && is_forest_prefix(children, children2),
        (ContentNode::Text { value }, ContentNode::Text { value: value2 }) => {
            value2.starts_with(value.as_str())
        }
        _ => part == whole,
    }
}

fn is_forest_prefix(part: &[ContentNode], whole: &[ContentNode]) -> bool {
    let kept = without_closing_caret(part);
    if kept.len() > whole.len() {
        return false;
    }
    for i in 0..kept.len() {
        if i + 1 < kept.len() {
            if kept[i] != whole[i] {
                return false;
            }
        } else if !is_tree_prefix(&kept[i], &whole[i]) {
            return false;
        }
    }
    true
}

#[test]
fn node_count_counts_elements_and_characters() {
    assert_eq!(two_paragraphs().node_count(), Some(13));
    assert_eq!(text("hello").node_count(), Some(5));
    assert_eq!(text("").node_count(), Some(0));
    assert_eq!(element("p", vec![]).node_count(), Some(1));
    assert_eq!(ContentNode::Comment { value: "a long comment".to_string() }.node_count(), Some(1));
    assert_eq!(ContentNode::RawMarkup { value: "<b>bold</b>".to_string() }.node_count(), Some(1));
    assert_eq!(ContentNode::Caret.node_count(), Some(1));
}

#[test]
fn node_count_counts_characters_not_bytes() {
    assert_eq!(text("h\u{e9}llo \u{2588}").node_count(), Some(7));
}

#[test]
fn zero_budget_yields_empty_container() {
    assert_eq!(project(&two_paragraphs(), 0), container(vec![]));
    assert_eq!(project(&text("hello"), 0), container(vec![]));
    assert_eq!(project(&ContentNode::Comment { value: "c".to_string() }, 0), container(vec![]));
}

#[test]
fn full_budget_yields_source_without_caret() {
    let source = two_paragraphs();
    let shown = project(&source, 13);
    assert_eq!(shown, container(vec![two_paragraphs()]));
    assert_eq!(caret_count(&shown), 0);
}

#[test]
fn budget_above_node_count_yields_source() {
    let source = two_paragraphs();
    assert_eq!(project(&source, 14), container(vec![two_paragraphs()]));
    assert_eq!(project(&source, usize::MAX), container(vec![two_paragraphs()]));
}

#[test]
fn budget_inside_text_cuts_it_and_appends_caret() {
    // div, p, 'h', 'e'
    let shown = project(&two_paragraphs(), 4);
    let expected = container(vec![element(
        "div",
        vec![element("p", vec![text("he"), ContentNode::Caret])],
    )]);
    assert_eq!(shown, expected);
}

#[test]
fn budget_inside_second_text_keeps_first_whole() {
    // div, p, hello, p, 'w'
    let shown = project(&two_paragraphs(), 9);
    let expected = container(vec![element(
        "div",
        vec![
            element("p", vec![text("hello")]),
            element("p", vec![text("w"), ContentNode::Caret]),
        ],
    )]);
    assert_eq!(shown, expected);
}

#[test]
fn budget_at_end_of_text_has_no_caret() {
    let shown = project(&two_paragraphs(), 7);
    let expected = container(vec![element("div", vec![element("p", vec![text("hello")])])]);
    assert_eq!(shown, expected);
    assert_eq!(caret_count(&shown), 0);
}

#[test]
fn element_is_shown_as_a_shell_when_one_unit_is_left() {
    let shown = project(&two_paragraphs(), 8);
    let expected = container(vec![element(
        "div",
        vec![element("p", vec![text("hello")]), element("p", vec![])],
    )]);
    assert_eq!(shown, expected);
    assert_eq!(project(&two_paragraphs(), 1), container(vec![element("div", vec![])]));
}

#[test]
fn childless_element_after_exhaustion_is_not_shown() {
    let source = element("ul", vec![text("ab"), element("li", vec![]), element("li", vec![])]);
    assert_eq!(source.node_count(), Some(5));
    assert_eq!(project(&source, 3), container(vec![element("ul", vec![text("ab")])]));
    assert_eq!(
        project(&source, 4),
        container(vec![element("ul", vec![text("ab"), element("li", vec![])])])
    );
}

#[test]
fn comment_and_raw_markup_are_single_units() {
    let comment = ContentNode::Comment { value: "note".to_string() };
    let raw = ContentNode::RawMarkup { value: "<i>x</i>".to_string() };
    let source = element("p", vec![comment.clone(), raw.clone(), text("z")]);
    assert_eq!(source.node_count(), Some(4));
    assert_eq!(project(&source, 1), container(vec![element("p", vec![])]));
    assert_eq!(project(&source, 2), container(vec![element("p", vec![comment.clone()])]));
    assert_eq!(
        project(&source, 3),
        container(vec![element("p", vec![comment.clone(), raw.clone()])])
    );
    assert_eq!(project(&source, 4), container(vec![source.clone()]));
}

#[test]
fn attributes_and_tag_are_copied() {
    let source = ContentNode::Element {
        tag: "a".to_string(),
        attributes: vec![
            Attribute { name: "href".to_string(), value: "#readmore".to_string() },
            Attribute { name: "class".to_string(), value: "link".to_string() },
        ],
        children: vec![text("Read more..")],
    };
    let shown = project(&source, 5);
    let expected = container(vec![ContentNode::Element {
        tag: "a".to_string(),
        attributes: vec![
            Attribute { name: "href".to_string(), value: "#readmore".to_string() },
            Attribute { name: "class".to_string(), value: "link".to_string() },
        ],
        children: vec![text("Read"), ContentNode::Caret],
    }]);
    assert_eq!(shown, expected);
}

#[test]
fn text_is_cut_by_characters() {
    let source = text("h\u{e9}llo");
    assert_eq!(project(&source, 2), container(vec![text("h\u{e9}"), ContentNode::Caret]));
    assert_eq!(project(&source, 5), container(vec![text("h\u{e9}llo")]));
}

#[test]
fn empty_text_is_never_shown() {
    let source = element("p", vec![text(""), text("ab"), text("")]);
    assert_eq!(source.node_count(), Some(3));
    assert_eq!(project(&source, 2), container(vec![element("p", vec![text("a"), ContentNode::Caret])]));
    assert_eq!(project(&source, 3), container(vec![element("p", vec![text("ab")])]));
    assert_eq!(project(&source, 10), container(vec![element("p", vec![text("ab")])]));
    assert_eq!(project(&text(""), 3), container(vec![]));
}

#[test]
fn projection_is_repeatable_and_leaves_source_alone() {
    let source = two_paragraphs();
    for budget in 0..=14 {
        let first = project(&source, budget);
        let second = project(&source, budget);
        assert_eq!(first, second);
    }
    assert_eq!(source, two_paragraphs());
}

#[test]
fn smaller_budget_gives_a_prefix_of_larger_budget() {
    let source = element(
        "div",
        vec![
            element("p", vec![text("one"), ContentNode::Comment { value: "c".to_string() }]),
            text("two"),
            element("ul", vec![element("li", vec![text("three")]), element("li", vec![])]),
        ],
    );
    let count = source.node_count().unwrap();
    assert_eq!(count, 17);
    for b1 in 0..=count + 1 {
        for b2 in b1..=count + 1 {
            let part = project(&source, b1);
            let whole = project(&source, b2);
            assert!(is_tree_prefix(&part, &whole), "budgets {} and {}", b1, b2);
            if b2 <= count && b1 < b2 {
                assert!(!is_tree_prefix(&whole, &part), "budgets {} and {}", b2, b1);
            }
        }
    }
}

#[test]
fn at_most_one_caret_and_only_inside_a_text() {
    let source = two_paragraphs();
    let inside: Vec<usize> = vec![3, 4, 5, 6, 9, 10, 11, 12];
    for budget in 0..=14 {
        let shown = project(&source, budget);
        let expected = if inside.contains(&budget) { 1 } else { 0 };
        assert_eq!(caret_count(&shown), expected, "budget {}", budget);
    }
}

#[test]
fn caret_is_the_last_node_and_follows_the_cut_text() {
    let shown = project(&two_paragraphs(), 10);
    let expected = container(vec![element(
        "div",
        vec![
            element("p", vec![text("hello")]),
            element("p", vec![text("wo"), ContentNode::Caret]),
        ],
    )]);
    assert_eq!(shown, expected);
}

#[test]
fn caret_of_the_source_is_a_unit_of_its_own() {
    let source = element("p", vec![ContentNode::Caret, text("ab")]);
    assert_eq!(source.node_count(), Some(4));
    assert_eq!(project(&source, 2), container(vec![element("p", vec![ContentNode::Caret])]));
}

#[test]
fn include_node_appends_to_what_is_there() {
    let mut dest = vec![text("kept")];
    include_node(&mut dest, &text("hello"), 2);
    assert_eq!(dest, vec![text("kept"), text("he"), ContentNode::Caret]);
}

#[test]
fn include_node_recursive_counts_what_it_used() {
    let mut dest = vec![];
    let next = include_node_recursive(&mut dest, &two_paragraphs(), 10, 4);
    // six units are left: div, p, 'h', 'e', 'l', 'l'
    assert_eq!(next, 10);
    assert_eq!(
        dest,
        vec![element("div", vec![element("p", vec![text("hell"), ContentNode::Caret])])]
    );

    let mut dest = vec![];
    let next = include_node_recursive(&mut dest, &text("ab"), 10, 4);
    assert_eq!(next, 6);
    assert_eq!(dest, vec![text("ab")]);

    let mut dest = vec![];
    let next = include_node_recursive(&mut dest, &text("ab"), 4, 10);
    assert_eq!(next, 10);
    assert_eq!(dest, vec![]);
}

#[test]
fn clone_copies_the_tree() {
    let source = two_paragraphs();
    assert_eq!(source.clone(), source);
}

#[test]
fn projection_shows_as_many_units_as_the_budget() {
    let source = two_paragraphs();
    let inside: Vec<usize> = vec![3, 4, 5, 6, 9, 10, 11, 12];
    for budget in 0..=20usize {
        let shown = project(&source, budget);
        let caret = if inside.contains(&budget) { 1 } else { 0 };
        // the container, the units of the budget, and the caret marker
        assert_eq!(shown.node_count(), Some(1 + budget.min(13) + caret), "budget {}", budget);
    }
}
