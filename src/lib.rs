//! Symbolic algebra over expression trees: exact arithmetic on integers and
//! fractions, numeric aggregation, substitution, differentiation, limits and
//! Taylor expansion.

pub mod aggregate;
pub mod derivative;
pub mod expression;
pub mod limit;
pub mod ops;
pub mod rational;
pub mod smart_num;
pub mod substitute;
pub mod taylor;
pub mod text;
