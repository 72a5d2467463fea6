//! Ingestion and integrity auditing of CityGML 3.0 documents.
//!
//! A document is split into XML tokens (`xml`). The structural parser
//! (`parser`) builds the typed feature graph of `model` from the tokens, and
//! `read` reads a whole document into a city model. Visitors walk the graph in
//! pre-order (`visitor`): the geometry collector (`geometry_collector`), a
//! tracer (`interpreter`) and dataset statistics (`statistics`). Independently,
//! the validator (`validate`) gathers identifiers and cross-references from the
//! tokens, and `report` compiles what it gathered into a report of duplicate
//! identifiers and broken references.
pub mod geometry_collector;
pub mod interpreter;
pub mod model;
pub mod parser;
pub mod read;
pub mod report;
pub mod statistics;
pub mod validate;
pub mod visitor;
pub mod xml;
