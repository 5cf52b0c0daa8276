//! Decisions of a tiered cache: an expiring in-memory table in front of a Redis
//! store and a relational database, with the HTTP answers and the load
//! generator that go with it.
#![allow(unused_imports)]

pub mod config;
pub mod database;
pub mod error;
pub mod http;
pub mod laws;
pub mod load;
pub mod memory;
pub mod migrations;
pub mod redis_pool;
pub mod service;
pub mod text;
pub mod time;
