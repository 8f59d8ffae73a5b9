//! The generated label assignment.

use vstd::prelude::*;
use crate::tree::{Node, Tree};

verus! {

/// The name of the property that a generated assignment sets.
pub open spec fn label_property() -> Seq<char> {
    "debugLabel"@
}

/// The generated expression `<name>.debugLabel = "<name>"`.
pub open spec fn label_assignment(name: Seq<char>) -> Tree {
    Tree::Assign {
        left: Box::new(Tree::Member { obj: Box::new(Tree::Ident(name)), prop: label_property() }),
        right: Box::new(Tree::Str(name)),
    }
}

/// The generated statement `<name>.debugLabel = "<name>";`.
pub open spec fn label_statement(name: Seq<char>) -> Tree {
    Tree::ExprStmt(Box::new(label_assignment(name)))
}

impl Node {
    /// Builds the expression `<name>.debugLabel = "<name>"`: an assignment
    /// whose target is the member `debugLabel` of the variable `name`, and
    /// whose value is the string literal `name`.
    pub fn label_assignment(name: String) -> (expr: Node)
        ensures
            expr@ == label_assignment(name@),
    {
        proof {
            reveal_with_fuel(Node::model, 3);
        }
        let value = name.clone();
        Node::Assign {
            left: Box::new(
                Node::Member { obj: Box::new(Node::Ident(name)), prop: "debugLabel".to_owned() },
            ),
            right: Box::new(Node::Str(value)),
        }
    }
}

} // verus!
