//! What holds of the library as a whole.
pub mod data;
pub mod endpoints;
pub mod expansion;
pub mod faults;
pub mod grammar;
pub mod messages;
pub mod methods;
pub mod registration;
pub mod responses;
pub mod running;
pub mod schedule;
pub mod selection;
pub mod source;
pub mod wire;
