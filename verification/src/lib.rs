//! The decisions of a small HTTP service that keeps clients and the devices
//! they own in a relational database.
//!
//! Nothing here touches a socket or a database. Every endpoint is a handful
//! of functions: one says which statement the persistence layer is to run,
//! the next takes what came back and either asks for another statement or
//! produces the response. The program around this library runs the
//! statements and writes the responses.

pub mod model;
pub mod outside;
pub mod paging;
pub mod query;
pub mod response;
pub mod schema;
pub mod services;
