//! Debug-label injection for state atoms.
//!
//! A build-time rewrite of a program tree: every variable declaration whose
//! initializer calls one of a fixed set of atom factories gets a generated
//! statement `<name>.debugLabel = "<name>";`, appended to the end of the
//! statement list in which the call was met.
//!
//! * [`tree`] holds the program tree ([`tree::Node`]) and its mathematical
//!   model ([`tree::Tree`]).
//! * [`names`] holds the factory name set.
//! * [`label`] holds the generated assignment.
//! * [`rewrite`] says, as pure functions over the model, what the rewrite
//!   produces.
//! * [`visitor`] holds the executable visitor, proved against [`rewrite`].
//! * [`laws`] holds what follows for every tree.

pub mod label;
pub mod laws;
pub mod names;
pub mod rewrite;
pub mod tree;
pub mod visitor;
