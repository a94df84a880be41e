//! A personal career-finance estimation engine: it turns a recorded
//! employment history into derived reports — an earnings analysis, a
//! "loyalty tax" estimate (wage growth lost by staying with one employer),
//! and a resume export.
//!
//! Monetary amounts are carried as integer cents; dimensionless factors are
//! carried as scaled integers (a factor of 1.25 is `125` at scale 100, a
//! rate of 6% a year is `60_000` at parts-per-million scale).

pub mod date;
pub mod earnings;
pub mod loyalty;
pub mod estimate;
pub mod laws;
pub mod models;
pub mod resume;
pub mod text;

pub use date::Date;
