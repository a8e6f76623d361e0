//! Search over documents that a PostgreSQL database holds.
//!
//! The library turns the requests of a search server into statements for the
//! database, and the rows that come back into answers. It does no input or output
//! itself: a program around it carries the statements out.
//!
//! - [`text`], [`text_map`], [`json`], [`clock`], [`ids`]: the values that requests and
//!   answers are made of.
//! - [`statement`], [`named`]: statements, the values bound to them, their parameters.
//! - [`spi`], [`provider`], [`provider_sql`]: the search provider. Its search is in
//!   [`search`], [`facets`] and [`response`], suggestions and the search by meaning are in
//!   [`semantic`], writing documents in [`documents`]. What holds of them is in
//!   [`search_laws`], [`clause_laws`], [`facet_laws`], [`response_laws`], [`document_laws`]
//!   and [`provider_sql_laws`].
//! - [`schema`], [`queries`], [`repository`], [`error`]: the tables and the statements on
//!   them, with their parameters in [`query_laws`], what is bound to these in [`bind_laws`],
//!   and what the texts say in [`query_text_laws`] and [`schema_laws`].
//! - [`adapter`], [`domain`], [`recommendation`]: what the search services ask of the
//!   repositories, and what they get. [`tables`] says what the statements do to the tables,
//!   and [`store_laws`] what is read of what was written.
//! - [`config`], [`registry`], [`upload`]: the server: its configuration, its providers,
//!   and the upload of documents.
pub mod adapter;
pub mod bind_laws;
pub mod clause_laws;
pub mod clock;
pub mod config;
pub mod document_laws;
pub mod documents;
pub mod domain;
pub mod error;
pub mod facet_laws;
pub mod facets;
pub mod ids;
pub mod json;
pub mod named;
pub mod provider;
pub mod provider_sql;
pub mod provider_sql_laws;
pub mod queries;
pub mod query_laws;
pub mod query_text_laws;
pub mod recommendation;
pub mod registry;
pub mod repository;
pub mod response;
pub mod response_laws;
pub mod schema;
pub mod schema_laws;
pub mod search;
pub mod search_laws;
pub mod semantic;
pub mod spi;
pub mod statement;
pub mod store_laws;
pub mod tables;
pub mod text;
pub mod text_map;
pub mod upload;
