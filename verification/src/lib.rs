//! Core logic of rcd, a cooperative database service: the codes of its
//! enumerations, the SQL text of its backing store, statement building and
//! classification, result tables, and the decisions of its database interface.
pub mod text;
pub mod rcd_enum;
pub mod sql_text;
pub mod query_parser;
pub mod table;
pub mod statement;
pub mod guid;
pub mod dbi;
pub mod sqlite_store;
pub mod rcd_db;
pub mod cdata;
pub mod cds_types;
pub mod contract;
pub mod read_result;
pub mod participant;
pub mod schema;
pub mod partial_data;
pub mod test_harness;
pub mod replies;
pub mod rpc;
pub mod service;
pub mod store_model;
