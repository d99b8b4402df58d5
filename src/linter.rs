//! The lint engine: a pre-order walk over the tree that hands every node to
//! each enabled rule and collects the issues they report.

pub mod config;
pub mod context;
pub mod rules;
pub mod engine;
