//! The label-injecting visitor.
//!
//! [`DebugLabelTransformVisitor`] walks a program tree in place. Its
//! `visit_mut_*` methods do the whole traversal of a [`Node`]; each is proved
//! to leave the tree that [`rewritten`] describes. The `enter_*` and
//! `leave_*` methods are the single steps that the traversal is made of, for
//! a host that walks a tree of its own and reports what it meets.

use vstd::prelude::*;
use crate::label::label_assignment;
use crate::names::is_atom_import;
use crate::rewrite::{
    is_match,
    latest,
    pending_expr,
    pending_label,
    pending_labels,
    rewritten,
    rewritten_all,
    with_label,
};
use crate::tree::{CallExpr, Node, Tree, VarDeclarator, text, trees};

verus! {

/// The state that one traversal carries.
pub struct DebugLabelTransformVisitor {
    /// The name bound by the innermost declarator being visited, if its
    /// target is a simple identifier.
    pub current_var_declarator: Option<String>,
    /// The generated assignment that awaits emission at the end of the
    /// innermost statement list being visited.
    pub debug_label_expr: Option<Node>,
}

impl DebugLabelTransformVisitor {
    /// The declarator name, as a model value.
    pub open spec fn declarator_name(&self) -> Option<Seq<char>> {
        text(self.current_var_declarator)
    }

    /// The pending expression, as a model value.
    pub open spec fn pending(&self) -> Option<Tree> {
        match self.debug_label_expr {
            Some(expr) => Some(expr@),
            None => None,
        }
    }

    /// A visitor at the start of a traversal: no declarator name, nothing
    /// pending.
    pub fn new() -> (visitor: Self)
        ensures
            visitor.current_var_declarator is None,
            visitor.debug_label_expr is None,
    {
        Self { current_var_declarator: None, debug_label_expr: None }
    }

    /// Enters a declarator that binds `name` (nothing, for a target that is
    /// no simple identifier): `name` becomes the declarator name. Returns the
    /// name of the declarator around it, to be handed to
    /// [`Self::leave_var_declarator`].
    pub fn enter_var_declarator(&mut self, name: Option<String>) -> (outer: Option<String>)
        ensures
            outer == old(self).current_var_declarator,
            final(self).current_var_declarator == name,
            final(self).debug_label_expr == old(self).debug_label_expr,
    {
        let outer = self.current_var_declarator.take();
        self.current_var_declarator = name;
        outer
    }

    /// Leaves a declarator: the declarator name is again `outer`, whatever was
    /// met inside.
    pub fn leave_var_declarator(&mut self, outer: Option<String>)
        ensures
            final(self).current_var_declarator == outer,
            final(self).debug_label_expr == old(self).debug_label_expr,
    {
        self.current_var_declarator = outer;
    }

    /// Leaves a call expression whose children have been visited. `callee` is
    /// the name of the callee, if the callee is a bare identifier. On a match
    /// the label assignment for the declarator name becomes the pending
    /// expression, in place of any earlier one.
    pub fn leave_call_expr(&mut self, callee: Option<&str>)
        ensures
            final(self).current_var_declarator == old(self).current_var_declarator,
            is_match(callee_text(callee), old(self).declarator_name()) ==> final(self).pending()
                == Some(label_assignment(old(self).declarator_name()->0)),
            !is_match(callee_text(callee), old(self).declarator_name())
                ==> final(self).debug_label_expr == old(self).debug_label_expr,
    {
        match &self.current_var_declarator {
            Some(atom_name) => {
                match callee {
                    Some(id) => {
                        if is_atom_import(id) {
                            self.debug_label_expr = Some(Node::label_assignment(atom_name.clone()));
                        }
                    },
                    None => {},
                }
            },
            None => {},
        }
    }

    /// Enters a statement list: nothing is pending in it yet. Returns the
    /// pending expression of the list around it, to be handed to
    /// [`Self::leave_stmts`].
    pub fn enter_stmts(&mut self) -> (outer: Option<Node>)
        ensures
            outer == old(self).debug_label_expr,
            final(self).debug_label_expr is None,
            final(self).current_var_declarator == old(self).current_var_declarator,
    {
        self.debug_label_expr.take()
    }

    /// Leaves a statement list whose statements have been visited. Returns
    /// the statement to append to it: the one that wraps the pending
    /// expression, if there is one. The pending expression is again `outer`.
    pub fn leave_stmts(&mut self, outer: Option<Node>) -> (last: Option<Node>)
        ensures
            last is Some <==> old(self).debug_label_expr is Some,
            last matches Some(stmt) ==> stmt@ == Tree::ExprStmt(
                Box::new(old(self).pending()->0),
            ),
            final(self).debug_label_expr == outer,
            final(self).current_var_declarator == old(self).current_var_declarator,
    {
        let last = match self.debug_label_expr.take() {
            Some(expr) => Some(Node::ExprStmt(Box::new(expr))),
            None => None,
        };
        self.debug_label_expr = outer;
        last
    }

    /// Visits `node` and everything below it.
    pub fn visit_mut_node(&mut self, node: &mut Node)
        ensures
            final(node)@ == rewritten(old(node)@, old(self).declarator_name()),
            final(self).current_var_declarator == old(self).current_var_declarator,
            final(self).pending() == pending_expr(
                old(self).pending(),
                pending_label(old(node)@, old(self).declarator_name()),
            ),
        decreases *old(node), 0nat,
    {
        match node {
            Node::Ident(_) => {},
            Node::Str(_) => {},
            Node::Member { obj, .. } => {
                self.visit_mut_node(obj);
            },
            Node::Assign { left, right } => {
                self.visit_mut_node(left);
                self.visit_mut_node(right);
            },
            Node::ExprStmt(expr) => {
                self.visit_mut_node(expr);
            },
            Node::Call(call_expr) => {
                self.visit_mut_call_expr(call_expr);
            },
            Node::Declarator(var_declarator) => {
                self.visit_mut_var_declarator(var_declarator);
            },
            Node::Stmts(stmts) => {
                self.visit_mut_stmts(stmts);
            },
            Node::Other { children, .. } => {
                self.visit_mut_nodes(children);
            },
        }
    }

    /// Visits `nodes` one after the other: the children of one node that is
    /// no statement list.
    pub fn visit_mut_nodes(&mut self, nodes: &mut Vec<Node>)
        ensures
            trees(final(nodes)@) == rewritten_all(
                trees(old(nodes)@),
                old(self).declarator_name(),
            ),
            final(self).current_var_declarator == old(self).current_var_declarator,
            final(self).pending() == pending_expr(
                old(self).pending(),
                pending_labels(trees(old(nodes)@), old(self).declarator_name()),
            ),
        decreases *old(nodes), 0nat,
    {
        let count: usize = nodes.len();
        let mut i: usize = 0;
        while i < count
            invariant
                0 <= i <= count,
                nodes@.len() == count,
                old(nodes)@.len() == count,
                forall|j: int|
                    0 <= j < i ==> (#[trigger] nodes@[j])@ == rewritten(
                        old(nodes)@[j]@,
                        old(self).declarator_name(),
                    ),
                forall|j: int| i <= j < count ==> #[trigger] nodes@[j] == old(nodes)@[j],
                self.current_var_declarator == old(self).current_var_declarator,
                self.pending() == pending_expr(
                    old(self).pending(),
                    pending_labels(
                        trees(old(nodes)@).take(i as int),
                        old(self).declarator_name(),
                    ),
                ),
            decreases count - i,
        {
            proof {
                lemma_pending_labels_step(
                    trees(old(nodes)@),
                    old(self).declarator_name(),
                    i as int,
                );
            }
            self.visit_mut_node(&mut nodes[i]);
            i += 1;
        }
        proof {
            assert(trees(old(nodes)@).take(count as int) =~= trees(old(nodes)@));
        }
    }

    /// Visits a declarator: its target and its initializer are visited under
    /// the name that it binds, and the name of the declarator around it is
    /// put back afterwards.
    pub fn visit_mut_var_declarator(&mut self, var_declarator: &mut VarDeclarator)
        ensures
            final(var_declarator)@ == rewritten(
                old(var_declarator)@,
                old(self).declarator_name(),
            ),
            final(self).current_var_declarator == old(self).current_var_declarator,
            final(self).pending() == pending_expr(
                old(self).pending(),
                pending_label(old(var_declarator)@, old(self).declarator_name()),
            ),
        decreases *old(var_declarator), 0nat,
    {
        let name = match var_declarator.target.ident_name() {
            Some(id) => Some(id.clone()),
            None => None,
        };
        let old_var_declarator = self.enter_var_declarator(name);
        self.visit_mut_node(&mut var_declarator.target);
        match &mut var_declarator.init {
            Some(init) => {
                self.visit_mut_node(init);
            },
            None => {},
        }
        self.leave_var_declarator(old_var_declarator);
    }

    /// Visits a call expression: first its callee and arguments, then the
    /// call itself, which on a match replaces the pending expression.
    pub fn visit_mut_call_expr(&mut self, call_expr: &mut CallExpr)
        ensures
            final(call_expr)@ == rewritten(old(call_expr)@, old(self).declarator_name()),
            final(self).current_var_declarator == old(self).current_var_declarator,
            final(self).pending() == pending_expr(
                old(self).pending(),
                pending_label(old(call_expr)@, old(self).declarator_name()),
            ),
        decreases *old(call_expr), 0nat,
    {
        self.visit_mut_node(&mut call_expr.callee);
        self.visit_mut_nodes(&mut call_expr.args);
        match call_expr.callee.ident_name() {
            Some(id) => self.leave_call_expr(Some(id.as_str())),
            None => self.leave_call_expr(None),
        }
    }

    /// Visits a statement list: first its statements, then, if that left an
    /// expression pending, the list itself, which gets the statement that
    /// wraps the expression as its new last statement. The pending expression
    /// of the list around it is untouched.
    pub fn visit_mut_stmt_like(&mut self, stmts: &mut Vec<Node>)
        ensures
            trees(final(stmts)@) == with_label(
                rewritten_all(trees(old(stmts)@), old(self).declarator_name()),
                pending_labels(trees(old(stmts)@), old(self).declarator_name()),
            ),
            final(self).current_var_declarator == old(self).current_var_declarator,
            final(self).debug_label_expr == old(self).debug_label_expr,
        decreases *old(stmts), 1nat,
    {
        let outer = self.enter_stmts();
        self.visit_mut_nodes(stmts);
        match self.leave_stmts(outer) {
            Some(last) => {
                let ghost visited = stmts@;
                stmts.push(last);
                assert(trees(stmts@) =~= trees(visited).push(last@));
            },
            None => {},
        }
    }

    /// Visits the item list of a module.
    pub fn visit_mut_module_items(&mut self, items: &mut Vec<Node>)
        ensures
            trees(final(items)@) == with_label(
                rewritten_all(trees(old(items)@), old(self).declarator_name()),
                pending_labels(trees(old(items)@), old(self).declarator_name()),
            ),
            final(self).current_var_declarator == old(self).current_var_declarator,
            final(self).debug_label_expr == old(self).debug_label_expr,
        decreases *old(items), 2nat,
    {
        self.visit_mut_stmt_like(items);
    }

    /// Visits the statement list of a script or a block.
    pub fn visit_mut_stmts(&mut self, stmts: &mut Vec<Node>)
        ensures
            trees(final(stmts)@) == with_label(
                rewritten_all(trees(old(stmts)@), old(self).declarator_name()),
                pending_labels(trees(old(stmts)@), old(self).declarator_name()),
            ),
            final(self).current_var_declarator == old(self).current_var_declarator,
            final(self).debug_label_expr == old(self).debug_label_expr,
        decreases *old(stmts), 2nat,
    {
        self.visit_mut_stmt_like(stmts);
    }
}

/// The text of an optional string slice.
pub open spec fn callee_text(callee: Option<&str>) -> Option<Seq<char>> {
    match callee {
        Some(id) => Some(id@),
        None => None,
    }
}

/// Rewrites `program` with a visitor of its own, and returns it.
pub fn debug_label_transform(program: Node) -> (labelled: Node)
    ensures
        labelled@ == rewritten(program@, None),
{
    let mut program = program;
    let mut visitor = DebugLabelTransformVisitor::new();
    visitor.visit_mut_node(&mut program);
    program
}

/// What one more tree adds to the pending label of those before it.
proof fn lemma_pending_labels_step(trees: Seq<Tree>, name: Option<Seq<char>>, i: int)
    requires
        0 <= i < trees.len(),
    ensures
        pending_labels(trees.take(i + 1), name) == latest(
            pending_labels(trees.take(i), name),
            pending_label(trees[i], name),
        ),
{
    assert(trees.take(i + 1).drop_last() =~= trees.take(i));
}

} // verus!
