use figma_css::decls::Declarations;
use figma_css::stylesheet::{create_css, stylesheet_text};
use figma_css::document::{dedup_strings, parse, stylesheet_parts};
use figma_css::model::{default_effects, default_line_height_percent, default_opacity, default_visible};
use figma_css::emit::{create_markup, generate, resolve_identity, Rule};
use figma_css::markup::{markup_eq, Markup};
use figma_css::layout::{LayoutSizingMode, TextAlignHorizontal, TextCase, TextDecoration, TextTruncation};
use figma_css::model::{TypeStyle, VectorCommon};
use figma_css::model::{Component, ComponentSet, Frame, Node, NodeCommon, Style, StyleProperty, StyleType};
use figma_css::names::{parse_name, token_values};
use figma_css::num::Num;
use figma_css::paint::{Colour, Paint, PaintData};
use figma_css::selector::get_classes_of;
use figma_css::tokens::{generate_tokens, Token};

fn common(id: &str, name: &str, children: Vec<Node>) -> NodeCommon {
    NodeCommon { id: id.to_string(), name: name.to_string(), visible: true, children }
}

fn frame(id: &str, name: &str, children: Vec<Node>) -> Frame {
    Frame { node: common(id, name, children), ..Frame::default() }
}

fn red() -> Paint {
    Paint {
        visible: true,
        opacity: Num { micros: 1_000_000 },
        data: PaintData::Solid { color: Colour { a: Num { micros: 1_000_000 }, r: Num { micros: 1_000_000 }, g: Num { micros: 0 }, b: Num { micros: 0 } } },
    }
}

fn style(name: &str) -> Style {
    Style { key: String::new(), name: name.to_string(), description: String::new(), style_type: StyleType::Fill }
}

fn selectors(rules: &[Rule]) -> Vec<String> {
    rules.iter().map(|r| r.selector.clone()).collect()
}

#[test]
fn names_in_kebab_case() {
    assert_eq!(parse_name(&"Primary Button".to_string()), "primary-button");
    assert_eq!(parse_name(&"Icons/Arrow.Left".to_string()), "icons-arrow-left");
    assert_eq!(frame("1", "Card Header", vec![]).get_name(), "card-header");
}

#[test]
fn token_names_and_themes() {
    assert_eq!(token_values("Primary".to_string()), ("--primary".to_string(), ":root".to_string()));
    assert_eq!(token_values("Colors/Primary".to_string()), ("--colors-primary".to_string(), ":root".to_string()));
    assert_eq!(
        token_values("theme-dark/Brand/Primary".to_string()),
        ("--brand-primary".to_string(), "theme-dark".to_string())
    );
}

#[test]
fn selectors_of_names() {
    assert_eq!(get_classes_of(&"Card".to_string()), " .card");
    assert_eq!(get_classes_of(&"Size=Large, State=Hover".to_string()), "[size=\"large\"]:hover");
    assert_eq!(get_classes_of(&"State=Default".to_string()), "");
    assert_eq!(get_classes_of(&"Type=Primary;Active".to_string()), "[type=\"primary\"]:active");
    assert_eq!(get_classes_of(&"Type=Primary;Ghost".to_string()), "[type=\"primary\"].ghost");
    assert!(frame("1", "Size=Large", vec![]).is_variant());
    assert!(!frame("1", "Card", vec![]).is_variant());
}

fn tables() -> (Vec<(String, Component)>, Vec<(String, ComponentSet)>) {
    let components = vec![
        (
            "c1".to_string(),
            Component { key: String::new(), name: "Size=Large".to_string(), description: String::new(), component_set_id: "s1".to_string() },
        ),
        (
            "c2".to_string(),
            Component { key: String::new(), name: "Badge".to_string(), description: String::new(), component_set_id: String::new() },
        ),
    ];
    let sets = vec![("s1".to_string(), ComponentSet { key: String::new(), name: "Button".to_string(), description: String::new() })];
    (components, sets)
}

#[test]
fn instance_identity() {
    let (components, sets) = tables();
    let (name, classes, included) = resolve_identity(&"c1".to_string(), &"Button".to_string(), String::new(), &components, &sets);
    assert_eq!(name, "Size=Large");
    assert_eq!(classes, "button size=large");
    assert_eq!(included, Some("s1".to_string()));
    let (name, classes, included) = resolve_identity(&"c2".to_string(), &"Badge".to_string(), String::new(), &components, &sets);
    assert_eq!((name.as_str(), classes.as_str(), included), ("Badge", "", Some("c2".to_string())));
    let (name, classes, included) = resolve_identity(&"zz".to_string(), &"Lost".to_string(), String::new(), &components, &sets);
    assert_eq!((name.as_str(), classes.as_str(), included), ("Lost", "", None));
}

#[test]
fn instance_subtree_emits_no_rules() {
    let (components, sets) = tables();
    let inner = Node::Frame(Frame { fills: vec![red()], ..frame("4", "Inner", vec![]) });
    let instance = Node::Instance { frame: frame("3", "Badge", vec![inner]), component_id: "c2".to_string() };
    let root = Node::Component(frame("2", "Card", vec![instance]));
    let mut element = Vec::new();
    let mut css = Vec::new();
    let mut includes = Vec::new();
    generate(&root, &Frame::default(), &String::new(), &mut element, &mut css, &mut includes, false, &components, &sets);
    assert_eq!(selectors(&css), vec![" .card"]);
    assert_eq!(includes, vec!["c2".to_string()]);
    assert_eq!(element.len(), 1);
    assert_eq!(element[0].classes, " class=\"card\"");
    assert_eq!(element[0].children.len(), 1);
    assert_eq!(element[0].children[0].children.len(), 1);

    let mut css = Vec::new();
    let mut element = Vec::new();
    let mut includes = Vec::new();
    generate(&root, &Frame::default(), &String::new(), &mut element, &mut css, &mut includes, true, &components, &sets);
    assert!(css.is_empty());
}

#[test]
fn text_children_get_rules_and_spans() {
    let vector = VectorCommon {
        node: common("5", "Title", vec![]),
        min_width: None,
        max_width: None,
        min_height: None,
        max_height: None,
        absolute_bounding_box: None,
        layout_sizing_horizontal: LayoutSizingMode::Hug,
        layout_sizing_vertical: LayoutSizingMode::Hug,
        effects: vec![],
        fills: vec![red()],
        strokes: vec![],
        stroke_weight: None,
        styles: vec![],
    };
    let style = TypeStyle {
        font_family: "Inter".to_string(),
        font_weight: Num { micros: 0 },
        font_size: Num { micros: 0 },
        text_case: TextCase::Original,
        text_decoration: TextDecoration::NoDecoration,
        text_truncation: TextTruncation::Disabled,
        max_lines: None,
        text_align_horizontal: TextAlignHorizontal::Left,
        letter_spacing: Num { micros: 0 },
        line_height_percent_font_size: Num { micros: 0 },
    };
    let text = Node::Text { vector, characters: "Hello".to_string(), style };
    let root = Node::Component(frame("2", "Card", vec![text]));
    let (components, sets) = tables();
    let mut element = Vec::new();
    let mut css = Vec::new();
    let mut includes = Vec::new();
    generate(&root, &Frame::default(), &String::new(), &mut element, &mut css, &mut includes, false, &components, &sets);
    assert_eq!(selectors(&css), vec![" .card", " .card .title"]);
    let span = &element[0].children[0];
    assert_eq!(span.tag, "span");
    assert_eq!(span.classes, " class=\"title\"");
    assert_eq!(span.characters, "Hello");
}

#[test]
fn component_set_markup_is_deduplicated() {
    let set = Node::ComponentSet(frame(
        "s1",
        "Button",
        vec![
            Node::Component(frame("c1", "Size=Large", vec![])),
            Node::Component(frame("c3", "Size=Small", vec![])),
            Node::Component(frame("c4", "Size=Large", vec![])),
        ],
    ));
    let (components, sets) = tables();
    let mut element = Vec::new();
    let mut css = Vec::new();
    let mut includes = Vec::new();
    generate(&set, &Frame::default(), &String::new(), &mut element, &mut css, &mut includes, false, &components, &sets);
    assert_eq!(selectors(&css), vec![" .button[size=\"large\"]", " .button[size=\"small\"]", " .button[size=\"large\"]"]);
    let markup = create_markup(element, true);
    assert_eq!(markup.len(), 2);
    assert_eq!(markup[0].classes, " class=\"button\" size=\"large\"");
    assert_eq!(markup[1].classes, " class=\"button\" size=\"small\"");
}

#[test]
fn markup_equality_is_structural() {
    let a = Markup { tag: "div".to_string(), classes: String::new(), characters: String::new(), children: vec![] };
    let b = Markup { tag: "div".to_string(), classes: String::new(), characters: String::new(), children: vec![] };
    let c = Markup { tag: "div".to_string(), classes: String::new(), characters: String::new(), children: vec![b] };
    assert!(markup_eq(&a, &Markup { tag: "div".to_string(), classes: String::new(), characters: String::new(), children: vec![] }));
    assert!(!markup_eq(&a, &c));
    let plain = create_markup(vec![c], false);
    assert_eq!(plain.len(), 1);
    assert_eq!(plain[0].children.len(), 1);
}

fn styled_tree() -> (Node, Vec<(String, Style)>) {
    let mut card = frame("2", "Card", vec![]);
    card.fills = vec![red()];
    card.styles = vec![(StyleProperty::Fills, "st1".to_string()), (StyleProperty::Grid, "st2".to_string())];
    let mut other = frame("3", "Other", vec![]);
    other.styles = vec![(StyleProperty::Fills, "st1".to_string())];
    other.fills = vec![Paint { visible: false, ..red() }];
    let mut nested = frame("4", "Nested", vec![]);
    nested.fills = vec![red()];
    nested.styles = vec![(StyleProperty::Fills, "st3".to_string()), (StyleProperty::Fills, "missing".to_string())];
    card.node.children = vec![Node::Frame(other), Node::Frame(nested)];
    let styles = vec![
        ("st1".to_string(), style("theme-dark/Brand")),
        ("st2".to_string(), style("Grid")),
        ("st3".to_string(), style("Accent")),
    ];
    (Node::Component(card), styles)
}

fn token_rows(tokens: &[(String, Token)]) -> Vec<(String, String, String, String)> {
    tokens.iter().map(|(id, t)| (id.clone(), t.variable.clone(), t.value.clone(), t.theme.clone())).collect()
}

#[test]
fn token_extraction_first_wins() {
    let (tree, styles) = styled_tree();
    let mut tokens = Vec::new();
    generate_tokens(&tree, &styles, &mut tokens);
    assert_eq!(
        token_rows(&tokens),
        vec![
            ("st1".to_string(), "--brand".to_string(), "rgba(255,0,0,1)".to_string(), "theme-dark".to_string()),
            ("st3".to_string(), "--accent".to_string(), "rgba(255,0,0,1)".to_string(), ":root".to_string()),
        ]
    );
}

#[test]
fn token_extraction_twice_changes_nothing() {
    let (tree, styles) = styled_tree();
    let mut once = Vec::new();
    generate_tokens(&tree, &styles, &mut once);
    let mut twice = Vec::new();
    generate_tokens(&tree, &styles, &mut twice);
    generate_tokens(&tree, &styles, &mut twice);
    assert_eq!(token_rows(&once), token_rows(&twice));
}

#[test]
fn parse_whole_document() {
    let (card, styles) = styled_tree();
    let (components, sets) = tables();
    let badge = Node::Component(frame("c2", "Badge", vec![]));
    let instance = Node::Instance { frame: frame("9", "Badge", vec![]), component_id: "c2".to_string() };
    let holder = Node::Component(frame("7", "Holder", vec![instance]));
    let page = Node::Canvas(common("0:1", "Page", vec![card, badge, holder, Node::Frame(frame("8", "Loose", vec![]))]));
    let document = Node::Document(common("0:0", "Document", vec![page]));
    let (outputs, tokens) = parse(&document, &components, &sets, &styles);
    assert_eq!(outputs.iter().map(|o| o.name.clone()).collect::<Vec<_>>(), vec!["card", "badge", "holder"]);
    assert_eq!(outputs[2].includes, vec!["c2".to_string()]);
    assert_eq!(tokens.len(), 2);
    assert_eq!(stylesheet_parts(&outputs, 2), vec![1, 2]);
    assert_eq!(stylesheet_parts(&outputs, 0), vec![0]);
}

#[test]
fn rules_as_css_text() {
    let mut declarations = Declarations::new();
    declarations.insert("color", "red".to_string());
    declarations.insert("width", "10px".to_string());
    declarations.insert("color", "blue".to_string());
    let rules = vec![Rule { selector: " .card".to_string(), declarations }];
    let text = stylesheet_text(&rules);
    assert_eq!(text, " .card { color: blue; width: 10px; }\n");
    let css = create_css(&rules).expect("valid stylesheet");
    assert_ne!(css, text);
    assert!(css.contains(".card"));
    assert!(css.contains("color: "));
    assert!(css.contains("width: 10px"));
}

#[test]
fn includes_lose_consecutive_repeats() {
    let v = vec!["a".to_string(), "a".to_string(), "b".to_string(), "a".to_string()];
    assert_eq!(dedup_strings(v), vec!["a".to_string(), "b".to_string(), "a".to_string()]);
    assert!(dedup_strings(vec![]).is_empty());
}

#[test]
fn model_defaults() {
    assert!(default_visible());
    assert_eq!(default_opacity(), Num { micros: 1_000_000 });
    assert_eq!(default_line_height_percent(), Num { micros: 100_000_000 });
    assert!(default_effects().is_empty());
    let f = Frame::default();
    assert!(f.node.visible);
    assert!(f.css(&Frame::default()).entries.is_empty());
}
