pub mod avi;
pub mod datetime;
pub mod geo;
pub mod hut;
pub mod object;
pub mod row;
pub mod search;
pub mod tripreport;
