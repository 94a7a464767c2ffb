//! Verified core of a columnar feature-frame service for financial time
//! series: the discovery and ticket command grammar, the routing of request
//! identifiers to collection operations, the timestamp order that appends
//! keep, the well-formedness of frame schematics, and what gates a
//! retrieval (its row limit and the minimum rows a frame must hold).

pub mod blueprint;
pub mod command;
pub mod delimited;
pub mod ingest;
pub mod request;
pub mod retrieval;
pub mod schematic;
