//! Identifier values of the trading domain model.

pub mod identifiers;
