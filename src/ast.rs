//! The syntax tree. Every node can say where it stands in the source, and a
//! well-formed node's direct children come in source order inside its span.

pub mod node;
pub mod expression;
pub mod imports;
pub mod statement;
pub mod declaration;
