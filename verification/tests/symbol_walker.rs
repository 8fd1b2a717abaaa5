use aegis_lsp_core::walker::extract_symbols;
use aegis_lsp_core::walker::Node;
use aegis_lsp_core::walker::SymbolKind;

fn text(s: &str) -> Node {
    Node::Text(s.as_bytes().to_vec())
}

fn num() -> Node {
    Node::Other
}

#[test]
fn set_yields_one_variable() {
    // ["set", 3, "x", ["literal", 1]]
    let tree = Node::List(vec![
        text("set"),
        num(),
        text("x"),
        Node::List(vec![text("literal"), num()]),
    ]);
    let symbols = extract_symbols(&tree);
    assert_eq!(symbols.len(), 1);
    assert_eq!(symbols[0].name, b"x".to_vec());
    assert_eq!(symbols[0].kind, SymbolKind::Variable);
    assert_eq!(symbols[0].detail, Some(b"Variable".to_vec()));
    assert_eq!(symbols[0].insert, None);
}

#[test]
fn function_yields_descriptor_then_body() {
    // ["function", 2, "add", [], "int", ["set", 3, "y", 0]]
    let tree = Node::List(vec![
        text("function"),
        num(),
        text("add"),
        Node::List(vec![]),
        text("int"),
        Node::List(vec![text("set"), num(), text("y"), num()]),
    ]);
    let symbols = extract_symbols(&tree);
    assert_eq!(symbols.len(), 2);
    assert_eq!(symbols[0].name, b"add".to_vec());
    assert_eq!(symbols[0].kind, SymbolKind::Function);
    assert_eq!(symbols[0].detail, Some(b"Function".to_vec()));
    assert_eq!(symbols[0].insert, Some(b"add($0)".to_vec()));
    assert_eq!(symbols[1].name, b"y".to_vec());
    assert_eq!(symbols[1].kind, SymbolKind::Variable);
}

#[test]
fn namespace_yields_descriptor_then_members() {
    // ["namespace", 1, "Shapes", [["class", 2, "Circle"]]]
    let tree = Node::List(vec![
        text("namespace"),
        num(),
        text("Shapes"),
        Node::List(vec![Node::List(vec![text("class"), num(), text("Circle")])]),
    ]);
    let symbols = extract_symbols(&tree);
    assert_eq!(symbols.len(), 2);
    assert_eq!(symbols[0].name, b"Shapes".to_vec());
    assert_eq!(symbols[0].kind, SymbolKind::Namespace);
    assert_eq!(symbols[1].name, b"Circle".to_vec());
    assert_eq!(symbols[1].kind, SymbolKind::Class);
}

#[test]
fn if_recurses_into_both_branches() {
    // ["if", 1, cond, [["set", 2, "z", 0]], [["set", 3, "w", 0]]]
    let tree = Node::List(vec![
        text("if"),
        num(),
        num(),
        Node::List(vec![Node::List(vec![text("set"), num(), text("z"), num()])]),
        Node::List(vec![Node::List(vec![text("set"), num(), text("w"), num()])]),
    ]);
    let symbols = extract_symbols(&tree);
    assert_eq!(symbols.len(), 2);
    assert_eq!(symbols[0].name, b"z".to_vec());
    assert_eq!(symbols[1].name, b"w".to_vec());
}

#[test]
fn while_recurses_into_body() {
    let tree = Node::List(vec![
        text("while"),
        num(),
        num(),
        Node::List(vec![Node::List(vec![text("set"), num(), text("i"), num()])]),
    ]);
    let symbols = extract_symbols(&tree);
    assert_eq!(symbols.len(), 1);
    assert_eq!(symbols[0].name, b"i".to_vec());
}

#[test]
fn for_range_recurses_into_arguments() {
    let tree = Node::List(vec![
        text("for_range"),
        num(),
        Node::List(vec![text("set"), num(), text("k"), num()]),
    ]);
    let symbols = extract_symbols(&tree);
    assert_eq!(symbols.len(), 1);
    assert_eq!(symbols[0].name, b"k".to_vec());
}

#[test]
fn set_without_name_is_skipped() {
    let tree = Node::List(vec![text("set"), num()]);
    let symbols = extract_symbols(&tree);
    assert_eq!(symbols.len(), 0);
}

#[test]
fn set_with_non_string_name_is_skipped() {
    let tree = Node::List(vec![text("set"), num(), num()]);
    let symbols = extract_symbols(&tree);
    assert_eq!(symbols.len(), 0);
}

#[test]
fn unknown_tag_yields_nothing() {
    let tree = Node::List(vec![text("import"), num(), text("Math")]);
    let symbols = extract_symbols(&tree);
    assert_eq!(symbols.len(), 0);
}

#[test]
fn class_members_are_not_surfaced() {
    let tree = Node::List(vec![
        text("class"),
        num(),
        text("C"),
        Node::List(vec![text("set"), num(), text("m"), num()]),
    ]);
    let symbols = extract_symbols(&tree);
    assert_eq!(symbols.len(), 1);
    assert_eq!(symbols[0].name, b"C".to_vec());
    assert_eq!(symbols[0].kind, SymbolKind::Class);
}

#[test]
fn sibling_list_concatenates_in_order() {
    let tree = Node::List(vec![
        Node::List(vec![text("set"), num(), text("a"), num()]),
        Node::List(vec![text("set"), num(), text("b"), num()]),
    ]);
    let symbols = extract_symbols(&tree);
    assert_eq!(symbols.len(), 2);
    assert_eq!(symbols[0].name, b"a".to_vec());
    assert_eq!(symbols[1].name, b"b".to_vec());
}

#[test]
fn duplicates_are_kept() {
    let tree = Node::List(vec![
        Node::List(vec![text("set"), num(), text("a"), num()]),
        Node::List(vec![text("set"), num(), text("a"), num()]),
    ]);
    let symbols = extract_symbols(&tree);
    assert_eq!(symbols.len(), 2);
    assert_eq!(symbols[0].name, symbols[1].name);
}

#[test]
fn leaves_yield_nothing() {
    assert_eq!(extract_symbols(&Node::Other).len(), 0);
    assert_eq!(extract_symbols(&text("set")).len(), 0);
    assert_eq!(extract_symbols(&Node::List(vec![])).len(), 0);
}
