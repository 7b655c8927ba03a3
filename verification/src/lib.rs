//! Compiles sparse lookup filters over accounts and purchases into single
//! parameterised statements, and shapes the fetched rows into result pages.

pub mod accounts;
pub mod calendar;
pub mod clause;
pub mod compiler;
pub mod connective;
pub mod decimal;
pub mod fragment;
pub mod pagination;
pub mod purchases;
pub mod text;
