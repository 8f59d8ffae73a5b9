use debug_label::names::is_atom_import;
use debug_label::tree::{CallExpr, Node, VarDeclarator};
use debug_label::visitor::DebugLabelTransformVisitor;

fn assignment(name: &str) -> Node {
    Node::Assign {
        left: Box::new(Node::Member {
            obj: Box::new(Node::Ident(name.to_string())),
            prop: "debugLabel".to_string(),
        }),
        right: Box::new(Node::Str(name.to_string())),
    }
}

fn factory_call(factory: &str) -> CallExpr {
    CallExpr { callee: Box::new(Node::Ident(factory.to_string())), args: vec![] }
}

#[test]
fn new_visitor_carries_nothing() {
    let visitor = DebugLabelTransformVisitor::new();
    assert_eq!(visitor.current_var_declarator, None);
    assert_eq!(visitor.debug_label_expr, None);
}

#[test]
fn factory_names_are_recognized() {
    for name in [
        "atom",
        "atomFamily",
        "atomWithDefault",
        "atomWithObservable",
        "atomWithReducer",
        "atomWithReset",
        "atomWithStorage",
        "freezeAtom",
        "loadable",
        "selectAtom",
        "splitAtom",
    ] {
        assert!(is_atom_import(name), "{} is a factory", name);
    }
}

#[test]
fn other_names_are_not_recognized() {
    for name in ["", "Atom", "atoms", "ato", "atomfamily", "notAFactory", "debugLabel", "atom ", "useAtom"] {
        assert!(!is_atom_import(name), "{:?} is no factory", name);
    }
}

#[test]
fn label_assignment_has_the_generated_shape() {
    assert_eq!(Node::label_assignment("countAtom".to_string()), assignment("countAtom"));
}

#[test]
fn ident_name_reads_bare_identifiers_only() {
    assert_eq!(Node::Ident("x".to_string()).ident_name(), Some(&"x".to_string()));
    assert_eq!(Node::Str("x".to_string()).ident_name(), None);
    let member = Node::Member { obj: Box::new(Node::Ident("o".to_string())), prop: "x".to_string() };
    assert_eq!(member.ident_name(), None);
    assert_eq!(Node::Stmts(vec![]).ident_name(), None);
}

#[test]
fn declarator_steps_save_and_restore_the_name() {
    let mut visitor = DebugLabelTransformVisitor::new();
    let outermost = visitor.enter_var_declarator(Some("a".to_string()));
    assert_eq!(outermost, None);
    assert_eq!(visitor.current_var_declarator, Some("a".to_string()));

    let outer = visitor.enter_var_declarator(None);
    assert_eq!(outer, Some("a".to_string()));
    assert_eq!(visitor.current_var_declarator, None);

    visitor.leave_var_declarator(outer);
    assert_eq!(visitor.current_var_declarator, Some("a".to_string()));
    visitor.leave_var_declarator(outermost);
    assert_eq!(visitor.current_var_declarator, None);
    assert_eq!(visitor.debug_label_expr, None);
}

#[test]
fn call_step_matches_only_under_a_name_and_a_factory() {
    let mut visitor = DebugLabelTransformVisitor::new();
    visitor.leave_call_expr(Some("atom"));
    assert_eq!(visitor.debug_label_expr, None);

    let outer = visitor.enter_var_declarator(Some("countAtom".to_string()));
    visitor.leave_call_expr(None);
    assert_eq!(visitor.debug_label_expr, None);
    visitor.leave_call_expr(Some("notAFactory"));
    assert_eq!(visitor.debug_label_expr, None);
    visitor.leave_call_expr(Some("atom"));
    assert_eq!(visitor.debug_label_expr, Some(assignment("countAtom")));
    assert_eq!(visitor.current_var_declarator, Some("countAtom".to_string()));

    // A call that is no match leaves the pending expression alone.
    visitor.leave_call_expr(Some("notAFactory"));
    assert_eq!(visitor.debug_label_expr, Some(assignment("countAtom")));
    visitor.leave_var_declarator(outer);
    assert_eq!(visitor.debug_label_expr, Some(assignment("countAtom")));
}

#[test]
fn call_step_overwrites_the_pending_expression() {
    let mut visitor = DebugLabelTransformVisitor::new();
    let outer = visitor.enter_var_declarator(Some("a".to_string()));
    visitor.leave_call_expr(Some("atom"));
    visitor.leave_var_declarator(outer);
    let outer = visitor.enter_var_declarator(Some("b".to_string()));
    visitor.leave_call_expr(Some("selectAtom"));
    visitor.leave_var_declarator(outer);
    assert_eq!(visitor.debug_label_expr, Some(assignment("b")));
}

#[test]
fn list_steps_emit_and_restore() {
    let mut visitor = DebugLabelTransformVisitor::new();
    let outermost = visitor.enter_stmts();
    assert_eq!(outermost, None);

    let name = visitor.enter_var_declarator(Some("a".to_string()));
    visitor.leave_call_expr(Some("atom"));
    visitor.leave_var_declarator(name);

    // A nested list starts empty and hands the outer expression back.
    let outer = visitor.enter_stmts();
    assert_eq!(outer, Some(assignment("a")));
    assert_eq!(visitor.debug_label_expr, None);
    assert_eq!(visitor.leave_stmts(outer), None);
    assert_eq!(visitor.debug_label_expr, Some(assignment("a")));

    let last = visitor.leave_stmts(outermost);
    assert_eq!(last, Some(Node::ExprStmt(Box::new(assignment("a")))));
    assert_eq!(visitor.debug_label_expr, None);
    assert_eq!(visitor.current_var_declarator, None);
}

#[test]
fn visiting_a_list_keeps_the_state_around_it() {
    let mut visitor = DebugLabelTransformVisitor::new();
    visitor.current_var_declarator = Some("outer".to_string());
    visitor.debug_label_expr = Some(assignment("earlier"));
    let mut stmts = vec![Node::ExprStmt(Box::new(Node::Call(factory_call("atom"))))];
    visitor.visit_mut_stmts(&mut stmts);
    assert_eq!(
        stmts,
        vec![
            Node::ExprStmt(Box::new(Node::Call(factory_call("atom")))),
            Node::ExprStmt(Box::new(assignment("outer"))),
        ]
    );
    assert_eq!(visitor.current_var_declarator, Some("outer".to_string()));
    assert_eq!(visitor.debug_label_expr, Some(assignment("earlier")));
}

#[test]
fn visiting_a_call_leaves_the_label_pending() {
    let mut visitor = DebugLabelTransformVisitor::new();
    visitor.current_var_declarator = Some("countAtom".to_string());
    let mut call = factory_call("atomWithStorage");
    visitor.visit_mut_call_expr(&mut call);
    assert_eq!(call, factory_call("atomWithStorage"));
    assert_eq!(visitor.debug_label_expr, Some(assignment("countAtom")));
    assert_eq!(visitor.current_var_declarator, Some("countAtom".to_string()));
}

#[test]
fn visiting_a_declarator_leaves_the_label_pending() {
    let mut visitor = DebugLabelTransformVisitor::new();
    visitor.current_var_declarator = Some("outer".to_string());
    let make = || VarDeclarator {
        target: Box::new(Node::Ident("inner".to_string())),
        init: Some(Box::new(Node::Call(factory_call("loadable")))),
    };
    let mut declarator = make();
    visitor.visit_mut_var_declarator(&mut declarator);
    assert_eq!(declarator, make());
    assert_eq!(visitor.debug_label_expr, Some(assignment("inner")));
    assert_eq!(visitor.current_var_declarator, Some("outer".to_string()));
}

#[test]
fn visiting_nodes_keeps_the_last_label() {
    let mut visitor = DebugLabelTransformVisitor::new();
    let mut nodes = vec![
        Node::Declarator(VarDeclarator {
            target: Box::new(Node::Ident("a".to_string())),
            init: Some(Box::new(Node::Call(factory_call("atom")))),
        }),
        Node::Declarator(VarDeclarator {
            target: Box::new(Node::Ident("b".to_string())),
            init: Some(Box::new(Node::Call(factory_call("freezeAtom")))),
        }),
        Node::Declarator(VarDeclarator {
            target: Box::new(Node::Ident("c".to_string())),
            init: Some(Box::new(Node::Call(factory_call("plain")))),
        }),
    ];
    visitor.visit_mut_nodes(&mut nodes);
    assert_eq!(nodes.len(), 3);
    assert_eq!(visitor.debug_label_expr, Some(assignment("b")));

    let mut single = Node::Ident("atom".to_string());
    visitor.visit_mut_node(&mut single);
    assert_eq!(single, Node::Ident("atom".to_string()));
    assert_eq!(visitor.debug_label_expr, Some(assignment("b")));
}
