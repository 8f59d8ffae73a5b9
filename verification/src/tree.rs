//! The program tree and its mathematical model.
//!
//! The rewrite reads only a few node shapes: declarators, call expressions,
//! statement lists, and the parts of the assignment that it generates. Every
//! other kind of node is kept as [`Node::Other`], with its children in
//! traversal order.

use vstd::prelude::*;

verus! {

/// The mathematical model of a [`Node`]: the same tree, over sequences.
pub enum Tree {
    /// A bare identifier.
    Ident(Seq<char>),
    /// A string literal.
    Str(Seq<char>),
    /// A member access `obj.prop`, `prop` being a plain property name.
    Member { obj: Box<Tree>, prop: Seq<char> },
    /// An assignment `left = right`.
    Assign { left: Box<Tree>, right: Box<Tree> },
    /// A statement that evaluates one expression.
    ExprStmt(Box<Tree>),
    /// A call expression.
    Call { callee: Box<Tree>, args: Seq<Tree> },
    /// One `target = init` binding of a variable declaration.
    Declarator { target: Box<Tree>, init: Option<Box<Tree>> },
    /// An ordered statement list: the body of a module, a script or a block.
    Stmts(Seq<Tree>),
    /// Any other node.
    Other { kind: Seq<char>, children: Seq<Tree> },
}

/// A call expression.
#[derive(Debug, PartialEq, Eq)]
pub struct CallExpr {
    /// What is called.
    pub callee: Box<Node>,
    /// The arguments, in order.
    pub args: Vec<Node>,
}

/// One `target = init` binding of a variable declaration.
#[derive(Debug, PartialEq, Eq)]
pub struct VarDeclarator {
    /// The binding target: a [`Node::Ident`] for a simple binding, any other
    /// node for a destructuring pattern.
    pub target: Box<Node>,
    /// The initializer, if there is one.
    pub init: Option<Box<Node>>,
}

/// A node of the program tree.
#[derive(Debug, PartialEq, Eq)]
pub enum Node {
    /// A bare identifier.
    Ident(String),
    /// A string literal.
    Str(String),
    /// A member access `obj.prop`, `prop` being a plain property name.
    Member { obj: Box<Node>, prop: String },
    /// An assignment `left = right`.
    Assign { left: Box<Node>, right: Box<Node> },
    /// A statement that evaluates one expression.
    ExprStmt(Box<Node>),
    /// A call expression.
    Call(CallExpr),
    /// One binding of a variable declaration.
    Declarator(VarDeclarator),
    /// An ordered statement list: the body of a module, a script or a block.
    Stmts(Vec<Node>),
    /// Any other node: `kind` is the host's tag for it, together with
    /// whatever scalar payload the host keeps, and `children` are its child
    /// nodes in traversal order.
    Other { kind: String, children: Vec<Node> },
}

/// The models of a sequence of nodes, one for one.
pub open spec fn trees(nodes: Seq<Node>) -> Seq<Tree>
    decreases nodes,
{
    Seq::new(
        nodes.len(),
        |i: int|
            if 0 <= i < nodes.len() {
                nodes[i].model()
            } else {
                Tree::Stmts(Seq::empty())
            },
    )
}

impl CallExpr {
    /// The model of this call.
    pub open spec fn model(&self) -> Tree {
        Tree::Call { callee: Box::new(self.callee.model()), args: trees(self.args@) }
    }
}

impl VarDeclarator {
    /// The model of this declarator.
    pub open spec fn model(&self) -> Tree {
        Tree::Declarator {
            target: Box::new(self.target.model()),
            init: match self.init {
                Some(expr) => Some(Box::new(expr.model())),
                None => None,
            },
        }
    }
}

impl Node {
    /// The model of this node.
    pub open spec fn model(&self) -> Tree
        decreases self,
    {
        match self {
            Node::Ident(name) => Tree::Ident(name@),
            Node::Str(value) => Tree::Str(value@),
            Node::Member { obj, prop } => Tree::Member { obj: Box::new(obj.model()), prop: prop@ },
            Node::Assign { left, right } => Tree::Assign {
                left: Box::new(left.model()),
                right: Box::new(right.model()),
            },
            Node::ExprStmt(expr) => Tree::ExprStmt(Box::new(expr.model())),
            Node::Call(call) => Tree::Call {
                callee: Box::new(call.callee.model()),
                args: trees(call.args@),
            },
            Node::Declarator(declarator) => Tree::Declarator {
                target: Box::new(declarator.target.model()),
                init: match declarator.init {
                    Some(expr) => Some(Box::new(expr.model())),
                    None => None,
                },
            },
            Node::Stmts(list) => Tree::Stmts(trees(list@)),
            Node::Other { kind, children } => Tree::Other {
                kind: kind@,
                children: trees(children@),
            },
        }
    }
}

/// The name of `tree`, if it is a bare identifier.
pub open spec fn ident_name(tree: Tree) -> Option<Seq<char>> {
    match tree {
        Tree::Ident(name) => Some(name),
        _ => None,
    }
}

/// The text of an optional string.
pub open spec fn text(value: Option<String>) -> Option<Seq<char>> {
    match value {
        Some(s) => Some(s@),
        None => None,
    }
}

impl Node {
    /// The name of this node, if it is a bare identifier.
    pub fn ident_name(&self) -> (name: Option<&String>)
        ensures
            match name {
                Some(id) => ident_name(self@) == Some(id@),
                None => ident_name(self@) is None,
            },
    {
        match self {
            Node::Ident(name) => Some(name),
            _ => None,
        }
    }
}

impl View for CallExpr {
    type V = Tree;

    open spec fn view(&self) -> Tree {
        self.model()
    }
}

impl View for VarDeclarator {
    type V = Tree;

    open spec fn view(&self) -> Tree {
        self.model()
    }
}

impl View for Node {
    type V = Tree;

    open spec fn view(&self) -> Tree {
        self.model()
    }
}

} // verus!
