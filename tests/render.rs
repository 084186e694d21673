use regex_inspect::render::{render, render_properties, render_structure};
use regex_inspect::tree::{Node, Properties, Tree};

fn lit(s: &str) -> Node {
    Node::Literal(s.to_string())
}

fn properties_of(pattern: &str) -> Properties {
    let hir = regex_syntax::parse(pattern).unwrap();
    let p = hir.properties();
    Properties {
        minimum_len: p.minimum_len(),
        maximum_len: p.maximum_len(),
        look_set: format!("{:?}", p.look_set()),
        look_set_prefix: format!("{:?}", p.look_set_prefix()),
        look_set_suffix: format!("{:?}", p.look_set_suffix()),
        look_set_prefix_any: format!("{:?}", p.look_set_prefix_any()),
        look_set_suffix_any: format!("{:?}", p.look_set_suffix_any()),
        utf8: p.is_utf8(),
        explicit_captures_len: p.explicit_captures_len(),
        static_explicit_captures_len: p.static_explicit_captures_len(),
        literal: p.is_literal(),
        alternation_literal: p.is_alternation_literal(),
    }
}

#[test]
fn leaves_render_with_labels() {
    assert_eq!(render_structure(&Node::Empty), "Empty");
    assert_eq!(render_structure(&lit("ab")), "Literal(\"ab\")");
    assert_eq!(render_structure(&Node::Class("[a-z]".to_string())), "Class([a-z])");
    assert_eq!(render_structure(&Node::Look("Start".to_string())), "Look(Start)");
}

#[test]
fn nesting_follows_tree() {
    let tree = Node::Concat(vec![
        lit("a"),
        Node::Repetition {
            min: 0,
            max: None,
            greedy: true,
            sub: Box::new(Node::Alternation(vec![lit("b"), lit("c")])),
        },
    ]);
    assert_eq!(
        render_structure(&tree),
        "Concat([Literal(\"a\"), Repetition { min: 0, max: None, greedy: true, \
         sub: Alternation([Literal(\"b\"), Literal(\"c\")]) }])"
    );
}

#[test]
fn capture_and_bounded_repetition() {
    let tree = Node::Capture {
        index: 1,
        name: Some("word".to_string()),
        sub: Box::new(Node::Repetition {
            min: 2,
            max: Some(1000),
            greedy: false,
            sub: Box::new(lit("x")),
        }),
    };
    assert_eq!(
        render_structure(&tree),
        "Capture { index: 1, name: Some(\"word\"), sub: Repetition { min: 2, \
         max: Some(1000), greedy: false, sub: Literal(\"x\") } }"
    );
    let unnamed = Node::Capture { index: 12, name: None, sub: Box::new(Node::Empty) };
    assert_eq!(render_structure(&unnamed), "Capture { index: 12, name: None, sub: Empty }");
}

#[test]
fn empty_sequences() {
    assert_eq!(render_structure(&Node::Concat(vec![])), "Concat([])");
    assert_eq!(render_structure(&Node::Alternation(vec![lit("q")])), "Alternation([Literal(\"q\")])");
}

#[test]
fn literal_pattern_properties() {
    let p = properties_of("abc");
    assert_eq!(p.minimum_len, Some(3));
    assert_eq!(p.maximum_len, Some(3));
    let text = render_properties(&p);
    assert!(text.starts_with("Properties { minimum_len: Some(3), maximum_len: Some(3), look_set: "));
    assert!(text.contains(", explicit_captures_len: 0, static_explicit_captures_len: Some(0), "));
    assert!(text.ends_with(", literal: true, alternation_literal: true }"));
    assert!(text.contains(", utf8: true, "));
}

#[test]
fn unbounded_properties() {
    let p = properties_of("(a)(b)+");
    let text = render_properties(&p);
    assert!(text.starts_with("Properties { minimum_len: Some(2), maximum_len: unbounded, "));
    assert!(text.contains(", explicit_captures_len: 2, "));
    assert!(text.ends_with(", literal: false, alternation_literal: false }"));
}

#[test]
fn exact_properties_text() {
    let p = Properties {
        minimum_len: None,
        maximum_len: Some(907),
        look_set: "A".to_string(),
        look_set_prefix: "B".to_string(),
        look_set_suffix: "C".to_string(),
        look_set_prefix_any: "D".to_string(),
        look_set_suffix_any: "E".to_string(),
        utf8: false,
        explicit_captures_len: 40,
        static_explicit_captures_len: None,
        literal: false,
        alternation_literal: true,
    };
    assert_eq!(
        render_properties(&p),
        "Properties { minimum_len: None, maximum_len: Some(907), look_set: A, \
         look_set_prefix: B, look_set_suffix: C, look_set_prefix_any: D, \
         look_set_suffix_any: E, utf8: false, explicit_captures_len: 40, \
         static_explicit_captures_len: None, literal: false, alternation_literal: true }"
    );
}

#[test]
fn parse_failure_replaces_both_dumps() {
    let message = regex_syntax::parse("[").unwrap_err().to_string();
    assert!(message.contains("unclosed character class"));
    let (structure, properties) = render(&Err(message.clone()));
    assert_eq!(structure, message);
    assert_eq!(properties, message);
    let again = regex_syntax::parse("[").unwrap_err().to_string();
    assert_eq!(again, message);
}

#[test]
fn parsed_tree_renders_both_dumps() {
    let tree = Tree { root: lit("abc"), properties: properties_of("abc") };
    let (structure, properties) = render(&Ok(tree));
    assert_eq!(structure, "Literal(\"abc\")");
    assert!(properties.starts_with("Properties { minimum_len: Some(3), "));
}
