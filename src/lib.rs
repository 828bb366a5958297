//! Fractions of two `i32` values that are never reduced, with checked
//! construction, the four arithmetic operators, negation, reciprocal and
//! comparisons of the evaluated (truncated) quotient within a tolerance.

pub mod rational_t;
