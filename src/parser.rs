//! Recursive-descent parsing: one procedure per grammar rule, each consuming
//! exactly the tokens of its rule.

pub mod basic;
pub mod grammar;
pub mod imports;
pub mod statement;
pub mod conditional;
pub mod declaration;
