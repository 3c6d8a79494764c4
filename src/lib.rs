//! A general purpose sum type with two symmetric cases, `Left` and `Right`.
//!
//! - `either`: the type, its queries, and its transform and factoring combinators.
//! - `convert`: the fixed pairing with `Result` (`Err` with `Left`, `Ok` with
//!   `Right`) and the early-return helpers.
//! - `delegate`: iteration, dereferencing and display forwarded to the active side.
//! - `stream`: byte-stream reading and writing forwarded to the active side.
//! - `laws`: what holds of the combinators together.
use vstd::prelude::*;

mod convert;
mod delegate;
mod either;
mod laws;
mod stream;

pub use crate::delegate::{fold_run, folds_to};
pub use crate::convert::{either_of_result, result_of_either, try_left, try_right};
pub use crate::either::Either;
pub use crate::either::Either::{Left, Right};
pub use crate::laws::{
    lemma_eliminate_picks_side, lemma_factor_exact, lemma_flip_involution, lemma_inner_either_side,
    lemma_map_keeps_other_side, lemma_result_round_trip, lemma_sides_exclusive,
};
