//! A reader for the `*.osrm` file format of the OSRM routing engine.
//!
//! An `*.osrm` file is a tar archive. Its entry `/extractor/nodes` holds the
//! nodes of the routing graph as 16-byte records, and its entry
//! `/extractor/edges` holds the edges as 32-byte records, all integers little
//! endian.
pub mod osrm;
pub mod record;

pub use osrm::{
    classify, record_count, ByteSource, Entry, EntryKind, OsrmEdges, OsrmEntries, OsrmNodes,
    OsrmReader, RawEntry,
};
pub use record::{decode_edge, decode_node, Edge, Node, EDGE_SIZE, NODE_SIZE};
