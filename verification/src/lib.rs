//! The decision logic of a tile proxy and load balancer: request routing, the
//! tile cache path, the worker pool, admission control and the job queue,
//! each as functions from plain values to plain values with proved contracts.
pub mod cache;
pub mod config;
pub mod datasource;
pub mod environment;
pub mod fanout;
pub mod http;
pub mod job;
pub mod json;
pub mod master;
pub mod pyramid;
pub mod reload_workers;
pub mod router;
pub mod semaphore;
pub mod sqlite_clients;
pub mod structs;
pub mod text;
pub mod tile;
pub mod time;
pub mod utils;
pub mod workers;
