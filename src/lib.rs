//! Safe, verified conversion layer between logical literals and the integer
//! interface of a MiniSat-style native solving engine.
pub mod lit;
pub mod native;
pub mod session;
