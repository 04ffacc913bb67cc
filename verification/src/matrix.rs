//! Matrices of two to four rows and columns, in both storage orders.
//!
//! A matrix of a given shape exists twice: stored row by row and stored
//! column by column. The two hold the same entries at the same places of
//! the matrix, and each converts into the other.
pub mod column;
pub mod row;
