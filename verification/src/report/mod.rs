//! Reports of benchmark runs.

pub mod adapt;
pub mod csv;
pub mod emit;
pub mod kinds;
pub mod layout;
pub mod model;
pub mod table;
