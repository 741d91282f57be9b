use union_type::EnumNode;
use union_type::Expected;
use union_type::ImplNode;
use union_type::Node;
use union_type::UnionType;

fn enum_node(name: &str, subtypes: &[&str]) -> EnumNode {
    EnumNode {
        attrs: Vec::new(),
        vis: String::new(),
        name: name.to_string(),
        subtypes: subtypes.iter().map(|s| s.to_string()).collect(),
    }
}

fn impl_node(target: &str) -> ImplNode {
    ImplNode {
        target: target.to_string(),
        ops: Vec::new(),
    }
}

#[test]
fn parse_accepts_enum_then_impl() {
    let input = vec![
        Node::EnumDecl(enum_node("C", &["A", "B"])),
        Node::ImplBlock(impl_node("C")),
    ];
    let u = UnionType::parse(input).unwrap();
    assert_eq!(u.enum_type.name, "C");
    assert_eq!(u.enum_type.subtypes, vec!["A".to_string(), "B".to_string()]);
    assert_eq!(u.impl_type.target, "C");
    assert!(u.impl_type.ops.is_empty());
}

#[test]
fn parse_rejects_empty_input() {
    let e = UnionType::parse(Vec::new()).unwrap_err();
    assert_eq!(e.position, 0);
    assert_eq!(e.expected, Expected::EnumDeclaration);
}

#[test]
fn parse_rejects_enum_only() {
    let input = vec![Node::EnumDecl(enum_node("C", &["A", "B"]))];
    let e = UnionType::parse(input).unwrap_err();
    assert_eq!(e.position, 1);
    assert_eq!(e.expected, Expected::ImplBlock);
}

#[test]
fn parse_rejects_reversed_order() {
    let input = vec![
        Node::ImplBlock(impl_node("C")),
        Node::EnumDecl(enum_node("C", &["A", "B"])),
    ];
    let e = UnionType::parse(input).unwrap_err();
    assert_eq!(e.position, 0);
    assert_eq!(e.expected, Expected::EnumDeclaration);
}

#[test]
fn parse_rejects_two_impl_blocks() {
    let input = vec![
        Node::EnumDecl(enum_node("C", &["A"])),
        Node::ImplBlock(impl_node("C")),
        Node::ImplBlock(impl_node("C")),
    ];
    let e = UnionType::parse(input).unwrap_err();
    assert_eq!(e.position, 2);
    assert_eq!(e.expected, Expected::EndOfInput);
}

#[test]
fn parse_rejects_two_enums() {
    let input = vec![
        Node::EnumDecl(enum_node("C", &["A"])),
        Node::EnumDecl(enum_node("D", &["B"])),
    ];
    let e = UnionType::parse(input).unwrap_err();
    assert_eq!(e.position, 1);
    assert_eq!(e.expected, Expected::ImplBlock);
}

#[test]
fn parse_keeps_mismatched_target_name() {
    // The parser does not require the impl block's target to match the
    // enum's name; the output is generated under the enum's name anyway.
    let input = vec![
        Node::EnumDecl(enum_node("C", &["A"])),
        Node::ImplBlock(impl_node("D")),
    ];
    let u = UnionType::parse(input).unwrap();
    assert_eq!(u.enum_type.name, "C");
    assert_eq!(u.impl_type.target, "D");
}
