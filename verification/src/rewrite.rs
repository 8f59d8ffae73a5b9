//! What the rewrite produces, as pure functions over the model.
//!
//! Two things are carried down a traversal. The *declarator name* is the name
//! bound by the innermost declarator around a node, if that declarator has a
//! simple identifier as its target. The *pending label* belongs to one
//! statement list: it is the name that the last matching call under that list
//! was met with, and it becomes the list's last statement. A statement list
//! nested further down has a pending label of its own.

use vstd::prelude::*;
use crate::label::{label_assignment, label_statement};
use crate::names::atom_imports;
use crate::tree::{Tree, ident_name};

verus! {

/// Whether a call is a match: it is met under a declarator name, and its
/// callee is a bare identifier, `callee`, that names a factory.
pub open spec fn is_match(callee: Option<Seq<char>>, name: Option<Seq<char>>) -> bool {
    &&& name is Some
    &&& callee matches Some(id)
    &&& atom_imports().contains(id)
}

/// The later of two optional names: `later` where it holds one, else
/// `earlier`.
pub open spec fn latest(earlier: Option<Seq<char>>, later: Option<Seq<char>>) -> Option<
    Seq<char>,
> {
    if later is Some {
        later
    } else {
        earlier
    }
}

/// The pending expression of a statement list that held `earlier` before a
/// traversal that left `label` pending.
pub open spec fn pending_expr(earlier: Option<Tree>, label: Option<Seq<char>>) -> Option<Tree> {
    match label {
        Some(name) => Some(label_assignment(name)),
        None => earlier,
    }
}

/// The pending label that a traversal of `tree` under the declarator name
/// `name` leaves to the statement list around it: the name under which the
/// last matching call was met, nested statement lists left aside.
pub open spec fn pending_label(tree: Tree, name: Option<Seq<char>>) -> Option<Seq<char>>
    decreases tree,
{
    match tree {
        Tree::Ident(_) => None,
        Tree::Str(_) => None,
        Tree::Member { obj, .. } => pending_label(*obj, name),
        Tree::Assign { left, right } => latest(
            pending_label(*left, name),
            pending_label(*right, name),
        ),
        Tree::ExprStmt(expr) => pending_label(*expr, name),
        Tree::Call { callee, args } => if is_match(ident_name(*callee), name) {
            name
        } else {
            latest(pending_label(*callee, name), pending_labels(args, name))
        },
        Tree::Declarator { target, init } => {
            let inner = ident_name(*target);
            latest(
                pending_label(*target, inner),
                match init {
                    Some(expr) => pending_label(*expr, inner),
                    None => None,
                },
            )
        },
        Tree::Stmts(_) => None,
        Tree::Other { children, .. } => pending_labels(children, name),
    }
}

/// The pending label that a traversal of `trees`, one after the other, leaves
/// to the statement list around them.
pub open spec fn pending_labels(trees: Seq<Tree>, name: Option<Seq<char>>) -> Option<Seq<char>>
    decreases trees,
{
    if trees.len() == 0 {
        None
    } else {
        latest(pending_labels(trees.drop_last(), name), pending_label(trees.last(), name))
    }
}

/// `list` with the statement for `label` appended, if there is one.
pub open spec fn with_label(list: Seq<Tree>, label: Option<Seq<char>>) -> Seq<Tree> {
    match label {
        Some(name) => list.push(label_statement(name)),
        None => list,
    }
}

/// `tree` after the rewrite, met under the declarator name `name`.
pub open spec fn rewritten(tree: Tree, name: Option<Seq<char>>) -> Tree
    decreases tree,
{
    match tree {
        Tree::Ident(_) => tree,
        Tree::Str(_) => tree,
        Tree::Member { obj, prop } => Tree::Member { obj: Box::new(rewritten(*obj, name)), prop },
        Tree::Assign { left, right } => Tree::Assign {
            left: Box::new(rewritten(*left, name)),
            right: Box::new(rewritten(*right, name)),
        },
        Tree::ExprStmt(expr) => Tree::ExprStmt(Box::new(rewritten(*expr, name))),
        Tree::Call { callee, args } => Tree::Call {
            callee: Box::new(rewritten(*callee, name)),
            args: rewritten_all(args, name),
        },
        Tree::Declarator { target, init } => {
            let inner = ident_name(*target);
            Tree::Declarator {
                target: Box::new(rewritten(*target, inner)),
                init: match init {
                    Some(expr) => Some(Box::new(rewritten(*expr, inner))),
                    None => None,
                },
            }
        },
        Tree::Stmts(list) => Tree::Stmts(
            with_label(rewritten_all(list, name), pending_labels(list, name)),
        ),
        Tree::Other { kind, children } => Tree::Other {
            kind,
            children: rewritten_all(children, name),
        },
    }
}

/// Each of `trees` after the rewrite, met under the declarator name `name`.
pub open spec fn rewritten_all(trees: Seq<Tree>, name: Option<Seq<char>>) -> Seq<Tree>
    decreases trees,
{
    Seq::new(
        trees.len(),
        |i: int|
            if 0 <= i < trees.len() {
                rewritten(trees[i], name)
            } else {
                trees[i]
            },
    )
}

/// Whether a traversal of `tree` under the declarator name `name` meets a
/// matching call anywhere, nested statement lists included.
pub open spec fn has_match(tree: Tree, name: Option<Seq<char>>) -> bool
    decreases tree,
{
    match tree {
        Tree::Ident(_) => false,
        Tree::Str(_) => false,
        Tree::Member { obj, .. } => has_match(*obj, name),
        Tree::Assign { left, right } => has_match(*left, name) || has_match(*right, name),
        Tree::ExprStmt(expr) => has_match(*expr, name),
        Tree::Call { callee, args } => {
            ||| is_match(ident_name(*callee), name)
            ||| has_match(*callee, name)
            ||| any_match(args, name)
        },
        Tree::Declarator { target, init } => {
            let inner = ident_name(*target);
            ||| has_match(*target, inner)
            ||| match init {
                Some(expr) => has_match(*expr, inner),
                None => false,
            }
        },
        Tree::Stmts(list) => any_match(list, name),
        Tree::Other { children, .. } => any_match(children, name),
    }
}

/// Whether a traversal of one of `trees` under the declarator name `name`
/// meets a matching call.
pub open spec fn any_match(trees: Seq<Tree>, name: Option<Seq<char>>) -> bool
    decreases trees,
{
    exists|i: int| 0 <= i < trees.len() && has_match(#[trigger] trees[i], name)
}

/// Whether `tree` holds, anywhere, a call whose callee is a bare identifier
/// that names a factory.
pub open spec fn calls_factory(tree: Tree) -> bool
    decreases tree,
{
    match tree {
        Tree::Ident(_) => false,
        Tree::Str(_) => false,
        Tree::Member { obj, .. } => calls_factory(*obj),
        Tree::Assign { left, right } => calls_factory(*left) || calls_factory(*right),
        Tree::ExprStmt(expr) => calls_factory(*expr),
        Tree::Call { callee, args } => {
            ||| (ident_name(*callee) matches Some(id) && atom_imports().contains(id))
            ||| calls_factory(*callee)
            ||| any_calls_factory(args)
        },
        Tree::Declarator { target, init } => {
            ||| calls_factory(*target)
            ||| match init {
                Some(expr) => calls_factory(*expr),
                None => false,
            }
        },
        Tree::Stmts(list) => any_calls_factory(list),
        Tree::Other { children, .. } => any_calls_factory(children),
    }
}

/// Whether one of `trees` holds a call of a factory.
pub open spec fn any_calls_factory(trees: Seq<Tree>) -> bool
    decreases trees,
{
    exists|i: int| 0 <= i < trees.len() && calls_factory(#[trigger] trees[i])
}

/// Whether `tree` holds, anywhere, a declarator whose target is a simple
/// identifier.
pub open spec fn binds_name(tree: Tree) -> bool
    decreases tree,
{
    match tree {
        Tree::Ident(_) => false,
        Tree::Str(_) => false,
        Tree::Member { obj, .. } => binds_name(*obj),
        Tree::Assign { left, right } => binds_name(*left) || binds_name(*right),
        Tree::ExprStmt(expr) => binds_name(*expr),
        Tree::Call { callee, args } => binds_name(*callee) || any_binds_name(args),
        Tree::Declarator { target, init } => {
            ||| ident_name(*target) is Some
            ||| binds_name(*target)
            ||| match init {
                Some(expr) => binds_name(*expr),
                None => false,
            }
        },
        Tree::Stmts(list) => any_binds_name(list),
        Tree::Other { children, .. } => any_binds_name(children),
    }
}

/// Whether one of `trees` holds a declarator whose target is a simple
/// identifier.
pub open spec fn any_binds_name(trees: Seq<Tree>) -> bool
    decreases trees,
{
    exists|i: int| 0 <= i < trees.len() && binds_name(#[trigger] trees[i])
}

} // verus!
