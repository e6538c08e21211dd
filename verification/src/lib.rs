//! A small ecosystem-simulation engine: entities belong to taxonomic
//! groups, age and die over time, and consume one another according to
//! an asymmetric predator/prey rule table. Consumption transfers
//! ownership of the eaten entity into the eater's internal store, which
//! can later be drained, recovering the consumed entities as
//! independent values. A timestamp type with an ordering of its own
//! rounds the crate out.

pub mod animal;
pub mod datetime;
pub mod groups;
