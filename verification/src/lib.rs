//! The middle of a compiler for the Nest language: type inference over resolved
//! trees, and lowering of what was inferred to a small typed program.
//!
//! [`infer::infer_file`] infers a file and [`lower::lower_file`] lowers it. Every
//! step of either is a function from a state to a state, computed by an executable
//! function `f` and stated by a mathematical one, `f_spec`. What holds of the steps
//! together is stated and proved in [`laws`].

pub mod ast;
pub mod bigint;
pub mod bodies;
pub mod calls;
pub mod coerce;
pub mod decls;
pub mod def;
pub mod diag;
pub mod exprs;
pub mod facts;
pub mod fold;
pub mod ids;
pub mod infer;
pub mod intrinsics;
pub mod ir;
pub mod keeping;
pub mod laws;
pub mod list;
pub mod lower;
pub mod placing;
pub mod members;
pub mod solve;
pub mod subst;
pub mod symbol;
pub mod table;
pub mod text;
pub mod ty;
pub mod types;
pub mod unify;
