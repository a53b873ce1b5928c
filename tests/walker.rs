use doc_lint::classify::{classify, has_documentation, DeclarationKind};
use doc_lint::report::{visit_file, Diagnostic};
use doc_lint::syntax::{Attribute, NodeKind, SyntaxNode, SyntaxTree};

fn node(
    kind: NodeKind,
    name: &str,
    attributes: Vec<Attribute>,
    line: usize,
    column: usize,
    children: Vec<SyntaxNode>,
) -> SyntaxNode {
    SyntaxNode { kind, name: name.to_string(), attributes, line, column, children }
}

fn leaf(kind: NodeKind, name: &str, documented: bool, line: usize, column: usize) -> SyntaxNode {
    let attributes = if documented { vec![Attribute::Doc] } else { vec![] };
    node(kind, name, attributes, line, column, vec![])
}

fn summary(ds: &[Diagnostic]) -> Vec<(String, usize, usize)> {
    ds.iter().map(|d| (d.name.clone(), d.location.line, d.location.column)).collect()
}

fn run(items: Vec<SyntaxNode>) -> Vec<(String, usize, usize)> {
    summary(&visit_file("src/lib.rs", &SyntaxTree { items }))
}

#[test]
fn undocumented_struct_at_start_of_file() {
    let items = vec![leaf(NodeKind::Struct, "Point", false, 1, 1)];
    let ds = visit_file("src/lib.rs", &SyntaxTree { items });
    assert_eq!(ds.len(), 1);
    assert_eq!(ds[0].name, "Point");
    assert_eq!(ds[0].location.file, "src/lib.rs");
    assert_eq!(ds[0].location.line, 1);
    assert_eq!(ds[0].location.column, 1);
}

#[test]
fn impl_documented_function_then_undocumented_constant() {
    let imp = node(
        NodeKind::Impl,
        "",
        vec![],
        1,
        1,
        vec![
            leaf(NodeKind::ImplFunction, "new", true, 3, 5),
            leaf(NodeKind::ImplConstant, "LIMIT", false, 4, 5),
        ],
    );
    assert_eq!(run(vec![imp]), vec![("LIMIT".to_string(), 4, 5)]);
}

#[test]
fn each_undocumented_declaration_is_reported_once() {
    let kinds = [
        NodeKind::Function,
        NodeKind::Struct,
        NodeKind::Enum,
        NodeKind::Trait,
        NodeKind::Constant,
    ];
    for kind in kinds {
        assert_eq!(run(vec![leaf(kind, "item", false, 7, 1)]), vec![("item".to_string(), 7, 1)]);
    }
}

#[test]
fn documented_declarations_are_not_reported() {
    let kinds = [
        NodeKind::Function,
        NodeKind::Struct,
        NodeKind::Enum,
        NodeKind::Trait,
        NodeKind::Constant,
    ];
    for kind in kinds {
        assert_eq!(run(vec![leaf(kind, "item", true, 7, 1)]), vec![]);
    }
}

#[test]
fn documentation_among_other_attributes_counts() {
    let f = node(
        NodeKind::Function,
        "run",
        vec![Attribute::Other, Attribute::Doc, Attribute::Other],
        2,
        1,
        vec![],
    );
    assert_eq!(run(vec![f]), vec![]);
    let g = node(NodeKind::Function, "run", vec![Attribute::Other, Attribute::Other], 2, 1, vec![]);
    assert_eq!(run(vec![g]), vec![("run".to_string(), 2, 1)]);
}

#[test]
fn undocumented_trait_and_its_nested_function() {
    let t = node(
        NodeKind::Trait,
        "Shape",
        vec![],
        1,
        1,
        vec![leaf(NodeKind::TraitFunction, "area", false, 2, 5)],
    );
    assert_eq!(
        run(vec![t]),
        vec![("Shape".to_string(), 1, 1), ("area".to_string(), 2, 5)]
    );
}

#[test]
fn documented_trait_still_reports_its_items() {
    let t = node(
        NodeKind::Trait,
        "Shape",
        vec![Attribute::Doc],
        1,
        1,
        vec![
            leaf(NodeKind::TraitConstant, "SIDES", false, 2, 5),
            leaf(NodeKind::TraitFunction, "area", true, 4, 5),
        ],
    );
    assert_eq!(run(vec![t]), vec![("SIDES".to_string(), 2, 5)]);
}

#[test]
fn type_alias_and_use_are_never_reported() {
    let items = vec![
        leaf(NodeKind::Use, "", false, 1, 1),
        leaf(NodeKind::TypeAlias, "Meters", false, 2, 1),
        leaf(NodeKind::Function, "walk", false, 3, 1),
        leaf(NodeKind::TypeAlias, "Feet", true, 4, 1),
        leaf(NodeKind::Struct, "Road", false, 5, 1),
    ];
    assert_eq!(
        run(items),
        vec![("walk".to_string(), 3, 1), ("Road".to_string(), 5, 1)]
    );
}

#[test]
fn impl_with_one_documented_function() {
    let imp = node(
        NodeKind::Impl,
        "",
        vec![],
        1,
        1,
        vec![
            leaf(NodeKind::ImplFunction, "open", true, 3, 5),
            leaf(NodeKind::ImplFunction, "close", false, 5, 5),
        ],
    );
    assert_eq!(run(vec![imp]), vec![("close".to_string(), 5, 5)]);
    let f = leaf(NodeKind::ImplFunction, "close", false, 5, 5);
    assert_eq!(classify(&f), Some(DeclarationKind::ImplementedFunction));
}

#[test]
fn diagnostics_follow_source_order() {
    let items = vec![
        leaf(NodeKind::Function, "first", false, 2, 1),
        leaf(NodeKind::Struct, "second", false, 9, 1),
    ];
    assert_eq!(
        run(items),
        vec![("first".to_string(), 2, 1), ("second".to_string(), 9, 1)]
    );
}

#[test]
fn empty_file_gives_nothing() {
    assert_eq!(run(vec![]), vec![]);
}

#[test]
fn modules_are_walked_into() {
    let m = node(
        NodeKind::Module,
        "inner",
        vec![],
        1,
        1,
        vec![
            leaf(NodeKind::Function, "helper", false, 2, 5),
            node(
                NodeKind::Module,
                "deeper",
                vec![Attribute::Doc],
                3,
                5,
                vec![leaf(NodeKind::Enum, "Mode", false, 4, 9)],
            ),
        ],
    );
    let after = leaf(NodeKind::Constant, "MAX", false, 8, 1);
    assert_eq!(
        run(vec![m, after]),
        vec![
            ("helper".to_string(), 2, 5),
            ("Mode".to_string(), 4, 9),
            ("MAX".to_string(), 8, 1),
        ]
    );
}

#[test]
fn items_inside_function_bodies_come_after_the_function() {
    let f = node(
        NodeKind::Function,
        "outer",
        vec![],
        1,
        1,
        vec![leaf(NodeKind::Function, "inner", false, 2, 5), leaf(NodeKind::Macro, "", false, 3, 5)],
    );
    assert_eq!(
        run(vec![f]),
        vec![("outer".to_string(), 1, 1), ("inner".to_string(), 2, 5)]
    );
}

#[test]
fn file_path_is_carried_into_each_diagnostic() {
    let tree = SyntaxTree {
        items: vec![
            leaf(NodeKind::Function, "a", false, 1, 1),
            leaf(NodeKind::Function, "b", false, 2, 1),
        ],
    };
    let ds = visit_file("crates/x/src/main.rs", &tree);
    assert_eq!(ds.len(), 2);
    assert!(ds.iter().all(|d| d.location.file == "crates/x/src/main.rs"));
}

#[test]
fn classify_each_kind() {
    let cases = [
        (NodeKind::Function, Some(DeclarationKind::Function)),
        (NodeKind::Struct, Some(DeclarationKind::Struct)),
        (NodeKind::Enum, Some(DeclarationKind::Enum)),
        (NodeKind::Trait, Some(DeclarationKind::Trait)),
        (NodeKind::Constant, Some(DeclarationKind::Constant)),
        (NodeKind::ImplFunction, Some(DeclarationKind::ImplementedFunction)),
        (NodeKind::ImplConstant, Some(DeclarationKind::ImplementedConstant)),
        (NodeKind::TraitFunction, Some(DeclarationKind::ImplementedFunction)),
        (NodeKind::TraitConstant, Some(DeclarationKind::ImplementedConstant)),
        (NodeKind::Impl, None),
        (NodeKind::Module, None),
        (NodeKind::TypeAlias, None),
        (NodeKind::Use, None),
        (NodeKind::Macro, None),
        (NodeKind::Other, None),
    ];
    for (kind, expected) in cases {
        assert_eq!(classify(&leaf(kind, "x", false, 1, 1)), expected);
    }
}

#[test]
fn has_documentation_cases() {
    assert!(!has_documentation(&vec![]));
    assert!(!has_documentation(&vec![Attribute::Other]));
    assert!(has_documentation(&vec![Attribute::Doc]));
    assert!(has_documentation(&vec![Attribute::Other, Attribute::Other, Attribute::Doc]));
}
