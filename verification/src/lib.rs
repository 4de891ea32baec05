//! The verified core of a small calculation service.
//!
//! `integration` and `grid` hold the bookkeeping of adaptive integration by
//! the extended Simpson rule: the grid of samples with their weights, its
//! refinement from level to level, the estimates carried between levels, and
//! the decision when the integration is over. They hold no arithmetic on the
//! numbers themselves: the caller computes the estimates and hands them in.
//!
//! `page` writes the service's answers, `expression` makes the expression of a
//! request readable, and `text` and `numeral` hold what both need of strings
//! and numbers.

pub mod expression;
pub mod grid;
pub mod integration;
pub mod numeral;
pub mod page;
pub mod text;
