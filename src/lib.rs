//! Mirrors remote records into a relational database: the SQL, the record
//! batches, the message bus and the decisions of the sync workers, each with
//! its contract.

pub mod batch;
pub mod bus;
pub mod config;
pub mod control;
pub mod engine;
pub mod ingress;
pub mod mapping;
pub mod menu;
pub mod notify;
pub mod objects;
pub mod provision;
pub mod query;
pub mod record;
pub mod remote;
pub mod session;
pub mod setup;
pub mod sql;
pub mod text;
pub mod upsert;
