pub mod calculator;
pub mod laws;
pub mod point;

pub use calculator::{Calculator, Operator};
pub use point::Point;
