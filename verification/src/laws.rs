//! What holds of the rewrite for every tree.

use vstd::prelude::*;
use crate::label::label_statement;
use crate::names::atom_imports;
use crate::rewrite::{
    any_binds_name,
    any_calls_factory,
    any_match,
    binds_name,
    calls_factory,
    has_match,
    is_match,
    pending_label,
    pending_labels,
    rewritten,
    rewritten_all,
    with_label,
};
use crate::tree::{Tree, ident_name};

verus! {

/// A tree in which no matching call is met comes out of the rewrite as it
/// went in, and leaves nothing pending.
pub proof fn law_no_match_no_change(tree: Tree, name: Option<Seq<char>>)
    requires
        !has_match(tree, name),
    ensures
        rewritten(tree, name) == tree,
        pending_label(tree, name) is None,
    decreases tree,
{
    match tree {
        Tree::Ident(_) => {},
        Tree::Str(_) => {},
        Tree::Member { obj, .. } => {
            law_no_match_no_change(*obj, name);
        },
        Tree::Assign { left, right } => {
            law_no_match_no_change(*left, name);
            law_no_match_no_change(*right, name);
        },
        Tree::ExprStmt(expr) => {
            law_no_match_no_change(*expr, name);
        },
        Tree::Call { callee, args } => {
            law_no_match_no_change(*callee, name);
            law_no_match_no_change_all(args, name);
        },
        Tree::Declarator { target, init } => {
            let inner = ident_name(*target);
            law_no_match_no_change(*target, inner);
            match init {
                Some(expr) => {
                    law_no_match_no_change(*expr, inner);
                },
                None => {},
            }
        },
        Tree::Stmts(list) => {
            law_no_match_no_change_all(list, name);
        },
        Tree::Other { children, .. } => {
            law_no_match_no_change_all(children, name);
        },
    }
}

/// Trees in none of which a matching call is met come out of the rewrite as
/// they went in, and leave nothing pending.
pub proof fn law_no_match_no_change_all(trees: Seq<Tree>, name: Option<Seq<char>>)
    requires
        !any_match(trees, name),
    ensures
        rewritten_all(trees, name) == trees,
        pending_labels(trees, name) is None,
    decreases trees,
{
    assert forall|i: int| 0 <= i < trees.len() implies rewritten(#[trigger] trees[i], name)
        == trees[i] && pending_label(trees[i], name) is None by {
        law_no_match_no_change(trees[i], name);
    }
    assert(rewritten_all(trees, name) =~= trees);
    lemma_nothing_pending(trees, name);
}

/// Where none of `trees` leaves a label pending, all of them leave none.
proof fn lemma_nothing_pending(trees: Seq<Tree>, name: Option<Seq<char>>)
    requires
        forall|i: int| 0 <= i < trees.len() ==> pending_label(#[trigger] trees[i], name) is None,
    ensures
        pending_labels(trees, name) is None,
    decreases trees.len(),
{
    if trees.len() > 0 {
        lemma_nothing_pending(trees.drop_last(), name);
    }
}

/// A matching call is a call of a factory, and it is met under a declarator
/// name: the one that the traversal started with, or one that a declarator
/// with a simple identifier as its target binds.
pub proof fn law_match_needs_factory_and_name(tree: Tree, name: Option<Seq<char>>)
    requires
        has_match(tree, name),
    ensures
        calls_factory(tree),
        name is Some || binds_name(tree),
    decreases tree,
{
    match tree {
        Tree::Ident(_) => {},
        Tree::Str(_) => {},
        Tree::Member { obj, .. } => {
            law_match_needs_factory_and_name(*obj, name);
        },
        Tree::Assign { left, right } => {
            if has_match(*left, name) {
                law_match_needs_factory_and_name(*left, name);
            } else {
                law_match_needs_factory_and_name(*right, name);
            }
        },
        Tree::ExprStmt(expr) => {
            law_match_needs_factory_and_name(*expr, name);
        },
        Tree::Call { callee, args } => {
            if is_match(ident_name(*callee), name) {
            } else if has_match(*callee, name) {
                law_match_needs_factory_and_name(*callee, name);
            } else {
                law_match_needs_factory_and_name_all(args, name);
            }
        },
        Tree::Declarator { target, init } => {
            let inner = ident_name(*target);
            if has_match(*target, inner) {
                law_match_needs_factory_and_name(*target, inner);
            } else {
                law_match_needs_factory_and_name(*init->0, inner);
            }
        },
        Tree::Stmts(list) => {
            law_match_needs_factory_and_name_all(list, name);
        },
        Tree::Other { children, .. } => {
            law_match_needs_factory_and_name_all(children, name);
        },
    }
}

/// The same, of a sequence of trees.
pub proof fn law_match_needs_factory_and_name_all(trees: Seq<Tree>, name: Option<Seq<char>>)
    requires
        any_match(trees, name),
    ensures
        any_calls_factory(trees),
        name is Some || any_binds_name(trees),
    decreases trees,
{
    let i = choose|i: int| 0 <= i < trees.len() && has_match(#[trigger] trees[i], name);
    law_match_needs_factory_and_name(trees[i], name);
}

/// A tree that calls no factory by its bare name comes out of the rewrite as
/// it went in, whatever the declarator name: a callee that is a member
/// access, or an identifier outside the factory name set, never matches.
pub proof fn law_no_factory_call_no_change(tree: Tree, name: Option<Seq<char>>)
    requires
        !calls_factory(tree),
    ensures
        rewritten(tree, name) == tree,
        pending_label(tree, name) is None,
{
    if has_match(tree, name) {
        law_match_needs_factory_and_name(tree, name);
    }
    law_no_match_no_change(tree, name);
}

/// A tree without a declarator that has a simple identifier as its target,
/// met under no declarator name, comes out of the rewrite as it went in: a
/// destructuring target suppresses the match, whatever its initializer calls.
pub proof fn law_no_simple_binding_no_change(tree: Tree)
    requires
        !binds_name(tree),
    ensures
        rewritten(tree, None) == tree,
        pending_label(tree, None) is None,
{
    if has_match(tree, None) {
        law_match_needs_factory_and_name(tree, None);
    }
    law_no_match_no_change(tree, None);
}

/// A declarator that binds the simple identifier `variable` to a call of the
/// factory `factory` leaves `variable` pending, whatever its arguments are
/// and whatever the declarator name around it.
pub proof fn law_factory_initializer_labels_variable(
    variable: Seq<char>,
    factory: Seq<char>,
    args: Seq<Tree>,
    name: Option<Seq<char>>,
)
    requires
        atom_imports().contains(factory),
    ensures
        pending_label(
            Tree::Declarator {
                target: Box::new(Tree::Ident(variable)),
                init: Some(
                    Box::new(Tree::Call { callee: Box::new(Tree::Ident(factory)), args }),
                ),
            },
            name,
        ) == Some(variable),
{
    reveal_with_fuel(pending_label, 2);
}

/// What a declarator leaves pending, and what it is rewritten to, does not
/// depend on the declarator name around it: the name is scoped to the
/// innermost declarator.
pub proof fn law_declarator_scopes_name(
    target: Tree,
    init: Option<Box<Tree>>,
    name: Option<Seq<char>>,
    other: Option<Seq<char>>,
)
    ensures
        pending_label(Tree::Declarator { target: Box::new(target), init }, name) == pending_label(
            Tree::Declarator { target: Box::new(target), init },
            other,
        ),
        rewritten(Tree::Declarator { target: Box::new(target), init }, name) == rewritten(
            Tree::Declarator { target: Box::new(target), init },
            other,
        ),
{
}

/// The pending label of a sequence of trees is that of the last tree that
/// leaves one: where `trees[j]` leaves a label and no later tree does, that
/// label is pending after all of them.
pub proof fn law_pending_is_last_match(trees: Seq<Tree>, name: Option<Seq<char>>, j: int)
    requires
        0 <= j < trees.len(),
        pending_label(trees[j], name) is Some,
        forall|k: int| j < k < trees.len() ==> pending_label(#[trigger] trees[k], name) is None,
    ensures
        pending_labels(trees, name) == pending_label(trees[j], name),
    decreases trees.len(),
{
    if j < trees.len() - 1 {
        law_pending_is_last_match(trees.drop_last(), name, j);
    }
}

/// Last match wins: where statement `j` of a list leaves a label pending and
/// no later statement does, the rewritten list is the rewritten statements
/// followed by exactly one more statement, the label assignment for what
/// statement `j` left pending. What earlier statements left pending is
/// dropped.
pub proof fn law_last_match_wins(list: Seq<Tree>, name: Option<Seq<char>>, j: int)
    requires
        0 <= j < list.len(),
        pending_label(list[j], name) is Some,
        forall|k: int| j < k < list.len() ==> pending_label(#[trigger] list[k], name) is None,
    ensures
        rewritten(Tree::Stmts(list), name) == Tree::Stmts(
            rewritten_all(list, name).push(label_statement(pending_label(list[j], name)->0)),
        ),
        rewritten(Tree::Stmts(list), name)->Stmts_0.len() == list.len() + 1,
{
    law_pending_is_last_match(list, name, j);
    assert(rewritten_all(list, name).len() == list.len());
}

/// The rewrite of a list keeps every statement in its place, rewritten, and
/// appends at most one statement: the label assignment for what the
/// statements left pending, which is then the last statement of the list.
pub proof fn law_label_is_appended_last(list: Seq<Tree>, name: Option<Seq<char>>)
    ensures
        rewritten(Tree::Stmts(list), name) is Stmts,
        ({
            let out = rewritten(Tree::Stmts(list), name)->Stmts_0;
            &&& out.take(list.len() as int) == rewritten_all(list, name)
            &&& match pending_labels(list, name) {
                Some(variable) => out.len() == list.len() + 1 && out.last() == label_statement(
                    variable,
                ),
                None => out.len() == list.len(),
            }
        }),
{
    let out = rewritten(Tree::Stmts(list), name)->Stmts_0;
    assert(rewritten_all(list, name).len() == list.len());
    assert(out.take(list.len() as int) =~= rewritten_all(list, name));
}

/// A list none of whose statements leaves a label pending gets no statement
/// appended.
pub proof fn law_nothing_pending_nothing_appended(list: Seq<Tree>, name: Option<Seq<char>>)
    requires
        forall|k: int| 0 <= k < list.len() ==> pending_label(#[trigger] list[k], name) is None,
    ensures
        rewritten(Tree::Stmts(list), name) == Tree::Stmts(rewritten_all(list, name)),
{
    lemma_nothing_pending(list, name);
}

/// Scoping isolation: a statement list leaves nothing pending to the list
/// around it. What was met inside `inner` is appended to `inner` itself.
pub proof fn law_block_keeps_its_label(inner: Seq<Tree>, name: Option<Seq<char>>)
    ensures
        pending_label(Tree::Stmts(inner), name) is None,
        rewritten(Tree::Stmts(inner), name) == Tree::Stmts(
            with_label(rewritten_all(inner, name), pending_labels(inner, name)),
        ),
{
}

/// Scoping isolation, of a whole list: where every statement of `outer` is a
/// nested statement list or leaves nothing pending, `outer` gets no statement
/// appended, whatever the nested lists hold, and each nested list gets its
/// own label, if it has one.
pub proof fn law_scoping_isolation(outer: Seq<Tree>, name: Option<Seq<char>>)
    requires
        forall|k: int|
            0 <= k < outer.len() ==> (#[trigger] outer[k]) is Stmts || pending_label(
                outer[k],
                name,
            ) is None,
    ensures
        rewritten(Tree::Stmts(outer), name) == Tree::Stmts(rewritten_all(outer, name)),
        forall|k: int|
            0 <= k < outer.len() && (#[trigger] outer[k]) is Stmts ==> rewritten_all(
                outer,
                name,
            )[k] == Tree::Stmts(
                with_label(
                    rewritten_all(outer[k]->Stmts_0, name),
                    pending_labels(outer[k]->Stmts_0, name),
                ),
            ),
{
    assert forall|k: int| 0 <= k < outer.len() implies pending_label(
        #[trigger] outer[k],
        name,
    ) is None by {}
    lemma_nothing_pending(outer, name);
}

} // verus!
