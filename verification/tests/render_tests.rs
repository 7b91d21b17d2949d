use abnf::ast::Definition;
use abnf::ast::Node;
use abnf::ast::Range;
use abnf::ast::Repeat;
use abnf::ast::Rule;
use abnf::render::render_node;
use abnf::render::render_rule;

#[test]
fn test_display_rule() {
    let test = Rule::new("rule", Node::Rulename("A".into()));
    let expected = "rule = A";
    let got = render_rule(&test);
    assert_eq!(expected, got);

    let test = Rule::new("rule", Node::Rulename("A".into())).definition(Definition::Incremental);
    let expected = "rule =/ A";
    let got = render_rule(&test);
    assert_eq!(expected, got);
}

#[test]
fn test_display_prose() {
    let rule = Rule::new("rule", Node::ProseVal("test".into()));
    assert_eq!("rule = <test>", render_rule(&rule));
}

#[test]
fn test_alternation_joins_with_slashes() {
    let node = Node::Alternation(vec![
        Node::Rulename("A".into()),
        Node::Rulename("B".into()),
        Node::Rulename("C".into()),
    ]);
    assert_eq!("A / B / C", render_node(&node));
}

#[test]
fn test_concatenation_joins_with_spaces() {
    let node = Node::Concatenation(vec![
        Node::Rulename("A".into()),
        Node::Rulename("B".into()),
        Node::Rulename("C".into()),
    ]);
    assert_eq!("A B C", render_node(&node));
}

#[test]
fn test_single_child_list_renders_bare() {
    let node = Node::Alternation(vec![Node::Rulename("only".into())]);
    assert_eq!("only", render_node(&node));
    let node = Node::Concatenation(vec![Node::Rulename("only".into())]);
    assert_eq!("only", render_node(&node));
}

#[test]
fn test_repetition_without_repeat_renders_inner_only() {
    let node = Node::Repetition {
        repeat: None,
        node: Box::new(Node::Rulename("inner".into())),
    };
    assert_eq!("inner", render_node(&node));
}

#[test]
fn test_repetition_bounds() {
    let node = Node::Repetition {
        repeat: Some(Repeat { min: Some(1), max: Some(2) }),
        node: Box::new(Node::Rulename("x".into())),
    };
    assert_eq!("1*2x", render_node(&node));

    let node = Node::Repetition {
        repeat: Some(Repeat { min: Some(3), max: None }),
        node: Box::new(Node::Rulename("x".into())),
    };
    assert_eq!("3*x", render_node(&node));

    let node = Node::Repetition {
        repeat: Some(Repeat { min: None, max: Some(4) }),
        node: Box::new(Node::Rulename("x".into())),
    };
    assert_eq!("*4x", render_node(&node));

    let node = Node::Repetition {
        repeat: Some(Repeat { min: None, max: None }),
        node: Box::new(Node::Rulename("x".into())),
    };
    assert_eq!("*x", render_node(&node));
}

#[test]
fn test_multi_digit_bound_renders_in_decimal() {
    let node = Node::Repetition {
        repeat: Some(Repeat { min: Some(10), max: Some(255) }),
        node: Box::new(Node::Rulename("x".into())),
    };
    assert_eq!("10*255x", render_node(&node));
}

#[test]
fn test_group_and_optional_brackets() {
    let node = Node::Group(Box::new(Node::Rulename("g".into())));
    assert_eq!("(g)", render_node(&node));
    let node = Node::Optional(Box::new(Node::Rulename("o".into())));
    assert_eq!("[o]", render_node(&node));
}

#[test]
fn test_char_val_is_quoted() {
    let node = Node::CharVal("hello".into());
    assert_eq!("\"hello\"", render_node(&node));
}

#[test]
fn test_num_val_one_of_pads_to_two_hex_digits() {
    let node = Node::NumVal(Range::OneOf(vec![0x0D, 0x0A]));
    assert_eq!("%x0D.0A", render_node(&node));
}

#[test]
fn test_num_val_one_of_single() {
    let node = Node::NumVal(Range::OneOf(vec![0x7F]));
    assert_eq!("%x7F", render_node(&node));
}

#[test]
fn test_num_val_wide_values_render_uppercase() {
    let node = Node::NumVal(Range::OneOf(vec![0xABCDEF, 0x00]));
    assert_eq!("%xABCDEF.00", render_node(&node));
}

#[test]
fn test_num_val_range() {
    let node = Node::NumVal(Range::Range(0x41, 0x5A));
    assert_eq!("%x41-5A", render_node(&node));
}

#[test]
fn test_nested_tree_renders_depth_first() {
    let node = Node::Concatenation(vec![
        Node::Rulename("head".into()),
        Node::Group(Box::new(Node::Alternation(vec![
            Node::CharVal("a".into()),
            Node::Repetition {
                repeat: Some(Repeat { min: Some(1), max: None }),
                node: Box::new(Node::Rulename("tail".into())),
            },
        ]))),
        Node::Optional(Box::new(Node::NumVal(Range::Range(0x00, 0xFF)))),
    ]);
    assert_eq!("head (\"a\" / 1*tail) [%x00-FF]", render_node(&node));
}

#[test]
fn test_rule_new_defaults_to_basic() {
    let rule = Rule::new("r", Node::CharVal("x".into()));
    assert_eq!(rule.definition, Definition::Basic);
    assert_eq!(rule.name, "r");
}

#[test]
fn test_definition_update_keeps_other_fields() {
    let rule = Rule::new("r", Node::CharVal("x".into())).definition(Definition::Incremental);
    assert_eq!(rule.definition, Definition::Incremental);
    assert_eq!(rule.name, "r");
    assert_eq!(rule.node, Node::CharVal("x".into()));
}
