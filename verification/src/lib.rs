//! Request handling rules of a collaborative document service: who may read
//! and change a document, what each request asks of the database, and how
//! each database answer is turned into a reply.

mod text;
pub mod error;
pub mod permission;
pub mod model;
pub mod flow;
pub mod routes;
pub mod laws;
