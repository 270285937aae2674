//! Verified decision logic of a server-statistics module for Garry's Mod
//! dedicated servers: the Prometheus exporter's lifecycle, the refresh cache
//! for CPU readings, the integer side of process and CPU statistics, the
//! bookkeeping of asynchronous requests and the layout of the Lua API tables.

pub mod api;
pub mod exporter;
pub mod stats;
pub mod async_queue;
pub mod realtime;
