use abnf::ast::Node;
use abnf::ast::Range;
use abnf::ast::Repeat;
use abnf::ast::Rule;
use abnf::deps::node_deps;
use abnf::deps::rule_deps;

#[test]
fn test_cross_child_dedup_keeps_first_occurrence() {
    let rule = Rule::new(
        "r",
        Node::Concatenation(vec![
            Node::Rulename("B".into()),
            Node::Alternation(vec![Node::Rulename("A".into()), Node::Rulename("B".into())]),
        ]),
    );
    assert_eq!(rule_deps(&rule), vec!["B".to_string(), "A".to_string()]);
}

#[test]
fn test_terminals_have_no_dependencies() {
    assert!(node_deps(&Node::CharVal("A".into())).is_empty());
    assert!(node_deps(&Node::CharVal("".into())).is_empty());
    assert!(node_deps(&Node::ProseVal("A / B".into())).is_empty());
    assert!(node_deps(&Node::NumVal(Range::OneOf(vec![0x41]))).is_empty());
    assert!(node_deps(&Node::NumVal(Range::Range(0x00, 0xFF))).is_empty());
}

#[test]
fn test_rulename_is_a_singleton_dependency() {
    assert_eq!(node_deps(&Node::Rulename("name".into())), vec!["name".to_string()]);
}

#[test]
fn test_wrappers_pass_dependencies_through() {
    let inner = || Node::Rulename("dep".into());
    assert_eq!(node_deps(&Node::Group(Box::new(inner()))), vec!["dep".to_string()]);
    assert_eq!(node_deps(&Node::Optional(Box::new(inner()))), vec!["dep".to_string()]);
    let rep = Node::Repetition {
        repeat: Some(Repeat { min: Some(1), max: Some(2) }),
        node: Box::new(inner()),
    };
    assert_eq!(node_deps(&rep), vec!["dep".to_string()]);
}

#[test]
fn test_repeated_name_listed_once() {
    let node = Node::Alternation(vec![
        Node::Rulename("A".into()),
        Node::Rulename("A".into()),
        Node::Rulename("A".into()),
    ]);
    assert_eq!(node_deps(&node), vec!["A".to_string()]);
}

#[test]
fn test_declaration_order_is_preserved() {
    let node = Node::Concatenation(vec![
        Node::Rulename("z".into()),
        Node::Rulename("a".into()),
        Node::Rulename("m".into()),
    ]);
    assert_eq!(
        node_deps(&node),
        vec!["z".to_string(), "a".to_string(), "m".to_string()]
    );
}

#[test]
fn test_self_reference_is_listed() {
    let rule = Rule::new("loop", Node::Rulename("loop".into()));
    assert_eq!(rule_deps(&rule), vec!["loop".to_string()]);
}

#[test]
fn test_deep_nesting_collects_in_preorder() {
    let node = Node::Alternation(vec![
        Node::Group(Box::new(Node::Concatenation(vec![
            Node::Rulename("one".into()),
            Node::CharVal("x".into()),
            Node::Rulename("two".into()),
        ]))),
        Node::Optional(Box::new(Node::Rulename("one".into()))),
        Node::Rulename("three".into()),
    ]);
    assert_eq!(
        node_deps(&node),
        vec!["one".to_string(), "two".to_string(), "three".to_string()]
    );
}

#[test]
fn test_case_is_preserved_and_distinct() {
    let node = Node::Concatenation(vec![
        Node::Rulename("Name".into()),
        Node::Rulename("name".into()),
    ]);
    assert_eq!(node_deps(&node), vec!["Name".to_string(), "name".to_string()]);
}
