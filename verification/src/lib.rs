//! Clause-generation layer of a trait/type-resolution engine.
//!
//! Given a goal (a proposition about types, such as "type `T` implements
//! trait `Clone`") and an environment of local hypotheses, this library
//! computes the set of Horn clauses that a downstream resolver should
//! consider when proving the goal.
//!
//! - [`ir`] is the quantified clause model: types, goals, program
//!   clauses, and the mathematical models every contract speaks of.
//! - [`eq`] decides structural equality of those terms.
//! - [`store`] is the declaration store the algorithms query.
//! - [`could_match`] is the structural head-compatibility prefilter.
//! - [`clauses`] synthesizes auto-trait impls, dispatches on type and
//!   goal shapes, and assembles the final clause set for a goal.
//! - [`env`] saturates the environment's hypotheses to a fixed point.

pub mod clauses;
pub mod could_match;
pub mod env;
pub mod eq;
pub mod ir;
pub mod store;
