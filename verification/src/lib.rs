//! Electrical calculations and compliance checks for cable schedules.
//!
//! Two engines, independent of each other, both pure functions of what they
//! are given:
//!
//! - [`calculations`]: voltage drop over a run, the thinnest conductor that
//!   keeps a run within a budget, and current from power, on the resistance
//!   table of [`conductor`];
//! - [`validation`], [`segregation`] and [`summary`]: the checks on each cable
//!   of a schedule, the rules on cables that share a route, and the summary
//!   of a whole schedule.
//!
//! Around them: [`cable`] holds the record that the engines read,
//! [`estimate`], [`loads`] and [`tagging`] hold the smaller rules of a
//! schedule, and [`text`] the operations on text that all of them share.
//!
//! Quantities are fixed-point integers in thousandths of their unit. Every
//! executable function carries a contract over the mathematical content of
//! its arguments and its result, and is verified against it.

pub mod cable;
pub mod calculations;
pub mod conductor;
pub mod estimate;
pub mod loads;
pub mod segregation;
pub mod summary;
pub mod tagging;
pub mod text;
pub mod validation;
