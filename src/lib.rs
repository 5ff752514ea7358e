//! Alert aggregation and dynamic query building for the relational event store.
pub mod builder;
pub mod group_index;
pub mod alerts;
pub mod aggregate;
pub mod filters;
pub mod queries;
pub mod sensors;
pub mod repo;
pub mod updates;
pub mod listing;
