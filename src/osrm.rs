//! Entries of an `*.osrm` archive and lazy sequences over their records.
use crate::record::{decode_edge, decode_node, edge_of, node_of, Edge, Node, EDGE_SIZE, NODE_SIZE};

use vstd::prelude::*;

verus! {

/// The byte source that an archive is read from.
pub type ByteSource = Box<dyn std::io::Read>;

/// A tar archive over a byte source.
#[verifier::external_body]
pub struct SourceArchive {
    archive: tar::Archive<ByteSource>,
}

/// The walk over a tar archive's entries.
#[verifier::external_body]
pub struct SourceEntries<'a> {
    entries: tar::Entries<'a, ByteSource>,
}

/// One tar entry: its header, and a reader of its payload bounded to the
/// declared size.
#[verifier::external_body]
pub struct RawEntry<'a> {
    pub entry: tar::Entry<'a, ByteSource>,
}

#[verifier::external_type_specification]
#[verifier::external_body]
pub struct ExIoError(std::io::Error);

/// Relies on `tar::Archive::new`, which wraps `reader` without reading it.
#[verifier::external_body]
fn archive_new<R: std::io::Read + 'static>(reader: R) -> (r: SourceArchive) {
    SourceArchive { archive: tar::Archive::new(Box::new(reader)) }
}

/// Relies on `tar::Archive::entries`, which starts the walk over the
/// archive's entries in the order they are stored.
#[verifier::external_body]
fn archive_entries(a: &mut SourceArchive) -> (r: Result<SourceEntries<'_>, std::io::Error>) {
    match a.archive.entries() {
        Ok(entries) => Ok(SourceEntries { entries }),
        Err(e) => Err(e),
    }
}

/// Relies on `Iterator::next` of `tar::Entries`, which reads the next entry's
/// header; `None` once the archive is at its end.
#[verifier::external_body]
fn next_archive_entry<'a>(w: &mut SourceEntries<'a>) -> (r: Option<Result<RawEntry<'a>, std::io::Error>>) {
    match w.entries.next() {
        Some(Ok(entry)) => Some(Ok(RawEntry { entry })),
        Some(Err(e)) => Some(Err(e)),
        None => None,
    }
}

/// Relies on `tar::Header::path` of the entry's header and on
/// `std::path::Path::to_str`: the stored path, `None` where it is not UTF-8.
#[verifier::external_body]
fn entry_path(e: &RawEntry<'_>) -> (r: Result<Option<String>, std::io::Error>) {
    match e.entry.header().path() {
        Ok(p) => Ok(p.to_str().map(String::from)),
        Err(err) => Err(err),
    }
}

/// Relies on `tar::Header::size` of the entry's header: the declared size of
/// the entry's payload in bytes.
#[verifier::external_body]
fn entry_size(e: &RawEntry<'_>) -> (r: Result<u64, std::io::Error>) {
    e.entry.header().size()
}

/// Relies on `std::io::Read::read_exact` of `tar::Entry`, which fills `buf`
/// from the entry's payload or fails; the length of `buf` stays as it is.
#[verifier::external_body]
fn read_record(e: &mut RawEntry<'_>, buf: &mut Vec<u8>) -> (r: Result<(), std::io::Error>)
    ensures
        final(buf)@.len() == old(buf)@.len(),
{
    std::io::Read::read_exact(&mut e.entry, buf.as_mut_slice())
}

/// Relies on `std::io::Error::new`, an error of kind `InvalidData`.
#[verifier::external_body]
fn invalid_data(msg: &str) -> (r: std::io::Error) {
    std::io::Error::new(std::io::ErrorKind::InvalidData, msg)
}

/// The number of records of `width` bytes in `size` bytes, where the size is a
/// whole number of records.
pub open spec fn records_in(size: u64, width: u64) -> Option<u64>
    recommends
        width > 0,
{
    if size % width == 0 {
        Some(size / width)
    } else {
        None
    }
}

/// The number of records of `record_width` bytes in a payload of
/// `declared_size` bytes; `None` where the size is no whole number of records.
pub fn record_count(declared_size: u64, record_width: u64) -> (r: Option<u64>)
    requires
        record_width > 0,
    ensures
        r == records_in(declared_size, record_width),
{
    if declared_size % record_width == 0 {
        Some(declared_size / record_width)
    } else {
        None
    }
}

/// A payload whose size is a whole number of records holds exactly
/// `size / width` of them, and they cover it to its last byte.
pub proof fn lemma_whole_records(size: u64, width: u64)
    requires
        width > 0,
        size % width == 0,
    ensures
        records_in(size, width) == Some((size / width) as u64),
        (size / width) * width == size,
{
    vstd::arithmetic::div_mod::lemma_fundamental_div_mod(size as int, width as int);
    vstd::arithmetic::mul::lemma_mul_is_commutative(width as int, (size / width) as int);
}

/// A payload whose size is no whole number of records gives no record count,
/// so no record sequence is made over it.
pub proof fn lemma_misaligned_size_refused(size: u64, width: u64)
    requires
        width > 0,
        size % width != 0,
    ensures
        records_in(size, width) is None,
{
}

/// What an archive entry holds, by its path.
#[derive(Clone, Copy, Debug, PartialEq, Eq, Structural)]
pub enum EntryKind {
    Nodes,
    Edges,
    Unknown,
}

/// The kind of an entry whose path is `path`, `None` for a path that is not
/// text.
pub open spec fn kind_of(path: Option<Seq<char>>) -> EntryKind {
    match path {
        Some(p) => if p == "/extractor/nodes"@ {
            EntryKind::Nodes
        } else if p == "/extractor/edges"@ {
            EntryKind::Edges
        } else {
            EntryKind::Unknown
        },
        None => EntryKind::Unknown,
    }
}

/// The characters of a path that may not be text.
pub open spec fn path_view(path: Option<String>) -> Option<Seq<char>> {
    match path {
        Some(p) => Some(p@),
        None => None,
    }
}

/// Classification depends on the path alone: `/extractor/nodes` gives the
/// node table, `/extractor/edges` the edge table, and every other path, the
/// empty one and one that is not text included, an unknown entry.
pub proof fn lemma_classification(path: Option<Seq<char>>)
    ensures
        kind_of(path) == EntryKind::Nodes <==> path == Some("/extractor/nodes"@),
        kind_of(path) == EntryKind::Edges <==> path == Some("/extractor/edges"@),
        kind_of(path) == EntryKind::Unknown <==> path != Some("/extractor/nodes"@) && path != Some(
            "/extractor/edges"@,
        ),
{
    reveal_strlit("/extractor/nodes");
    reveal_strlit("/extractor/edges");
    assert("/extractor/nodes"@[11] != "/extractor/edges"@[11]);
}

/// Classifies an entry by its exact path.
pub fn classify(path: &Option<String>) -> (r: EntryKind)
    ensures
        r == kind_of(path_view(*path)),
{
    match path {
        Some(p) => {
            let nodes = "/extractor/nodes".to_owned();
            let edges = "/extractor/edges".to_owned();
            if *p == nodes {
                EntryKind::Nodes
            } else if *p == edges {
                EntryKind::Edges
            } else {
                EntryKind::Unknown
            }
        },
        None => EntryKind::Unknown,
    }
}

/// A reader for `*.osrm` files that walks the entries of the archive.
pub struct OsrmReader {
    archive: SourceArchive,
}

impl OsrmReader {
    /// Creates a new `OsrmReader` over `reader`; nothing is read yet.
    pub fn new<R: std::io::Read + 'static>(reader: R) -> (r: OsrmReader) {
        OsrmReader { archive: archive_new(reader) }
    }

    /// Starts the walk over the entries of the archive.
    pub fn entries(&mut self) -> (r: Result<OsrmEntries<'_>, std::io::Error>) {
        match archive_entries(&mut self.archive) {
            Ok(entries) => Ok(OsrmEntries { entries }),
            Err(e) => Err(e),
        }
    }
}

/// The entries of an archive, classified one at a time in archive order.
///
/// An `Entry` holds nodes, edges or other content.
pub struct OsrmEntries<'a> {
    entries: SourceEntries<'a>,
}

/// An archive entry, by what it holds.
pub enum Entry<'a> {
    Nodes(OsrmNodes<'a>),
    Edges(OsrmEdges<'a>),
    Unknown(RawEntry<'a>),
}

impl<'a> Entry<'a> {
    /// What this entry holds.
    pub open spec fn kind(&self) -> EntryKind {
        match self {
            Entry::Nodes(_) => EntryKind::Nodes,
            Entry::Edges(_) => EntryKind::Edges,
            Entry::Unknown(_) => EntryKind::Unknown,
        }
    }

    /// A sequence of this entry starts at its first record.
    pub open spec fn is_fresh(&self) -> bool {
        match self {
            Entry::Nodes(n) => n.position() == 0,
            Entry::Edges(e) => e.position() == 0,
            Entry::Unknown(_) => true,
        }
    }
}

impl<'a> OsrmEntries<'a> {
    /// Reads the next entry's header and classifies the entry by its path.
    /// `None` once the archive is at its end; an error where the header, its
    /// path or its size cannot be read, or where a node or edge table's size
    /// is no whole number of records.
    pub fn next(&mut self) -> (r: Option<Result<Entry<'a>, std::io::Error>>)
        ensures
            r matches Some(Ok(e)) ==> e.is_fresh(),
    {
        match next_archive_entry(&mut self.entries) {
            None => None,
            Some(Err(err)) => Some(Err(err)),
            Some(Ok(entry)) => {
                let path = match entry_path(&entry) {
                    Ok(path) => path,
                    Err(err) => {
                        return Some(Err(err));
                    },
                };
                Some(entry_of_kind(classify(&path), entry))
            },
        }
    }
}

/// Builds the entry of `kind` over `entry`; a node or edge table is checked
/// for a whole number of records.
fn entry_of_kind<'a>(kind: EntryKind, entry: RawEntry<'a>) -> (r: Result<Entry<'a>, std::io::Error>)
    ensures
        r matches Ok(e) ==> e.kind() == kind && e.is_fresh(),
        kind == EntryKind::Unknown ==> r is Ok,
{
    match kind {
        EntryKind::Nodes => match OsrmNodes::new(entry) {
            Ok(nodes) => Ok(Entry::Nodes(nodes)),
            Err(err) => Err(err),
        },
        EntryKind::Edges => match OsrmEdges::new(entry) {
            Ok(edges) => Ok(Entry::Edges(edges)),
            Err(err) => Err(err),
        },
        EntryKind::Unknown => Ok(Entry::Unknown(entry)),
    }
}

/// A sequence over the nodes of a node table.
pub struct OsrmNodes<'a> {
    entry: RawEntry<'a>,
    pub number_of_nodes: u64,
    current_node_index: u64,
}

impl<'a> OsrmNodes<'a> {
    /// How many nodes were read so far.
    pub closed spec fn position(&self) -> u64 {
        self.current_node_index
    }

    /// How many nodes the table holds.
    pub closed spec fn total(&self) -> u64 {
        self.number_of_nodes
    }

    /// No node is left to read.
    pub open spec fn is_exhausted(&self) -> bool {
        self.position() >= self.total()
    }

    fn new(entry: RawEntry<'a>) -> (r: Result<OsrmNodes<'a>, std::io::Error>)
        ensures
            r matches Ok(n) ==> n.position() == 0 && n.total() * NODE_SIZE <= u64::MAX,
    {
        let size = match entry_size(&entry) {
            Ok(size) => size,
            Err(err) => {
                return Err(err);
            },
        };
        match record_count(size, NODE_SIZE as u64) {
            Some(number_of_nodes) => Ok(OsrmNodes { entry, number_of_nodes, current_node_index: 0 }),
            None => Err(invalid_data("Node entry size is not divisible by the size of a node.")),
        }
    }

    /// Reads and decodes the next node. `None` once all nodes were read, and
    /// on every call after that; an error where the payload ends early or
    /// cannot be read, in which case the position stays as it is.
    pub fn next(&mut self) -> (r: Option<Result<Node, std::io::Error>>)
        ensures
            final(self).total() == old(self).total(),
            old(self).is_exhausted() ==> r is None && final(self).position() == old(self).position(),
            old(self).is_exhausted() ==> final(self).is_exhausted(),
            !old(self).is_exhausted() ==> r is Some,
            r matches Some(Ok(n)) ==> final(self).position() == old(self).position() + 1
                && exists|b: Seq<u8>| b.len() == NODE_SIZE && n == #[trigger] node_of(b),
            r matches Some(Err(_)) ==> final(self).position() == old(self).position(),
    {
        if self.current_node_index >= self.number_of_nodes {
            return None;
        }
        let mut buf: Vec<u8> = vec![0u8; NODE_SIZE];
        if let Err(err) = read_record(&mut self.entry, &mut buf) {
            return Some(Err(err));
        }
        self.current_node_index = self.current_node_index + 1;
        let node = decode_node(buf.as_slice());
        Some(Ok(node))
    }

    /// Reads all nodes that are left, in table order. An error where one of
    /// them cannot be read.
    pub fn read_all(&mut self) -> (r: Result<Vec<Node>, std::io::Error>)
        ensures
            final(self).total() == old(self).total(),
            r matches Ok(v) ==> final(self).is_exhausted() && (old(self).is_exhausted() ==> v.len() == 0)
                && (!old(self).is_exhausted() ==> v.len() == old(self).total() - old(self).position()),
    {
        let mut all: Vec<Node> = Vec::new();
        loop
            invariant
                self.total() == old(self).total(),
                old(self).is_exhausted() ==> all.len() == 0 && self.position() == old(self).position(),
                !old(self).is_exhausted() ==> self.position() <= self.total() && all.len() == self.position() - old(self).position(),
            decreases self.total() - self.position(),
        {
            match self.next() {
                None => {
                    return Ok(all);
                },
                Some(Err(err)) => {
                    return Err(err);
                },
                Some(Ok(item)) => {
                    all.push(item);
                },
            }
        }
    }
}

/// A sequence over the edges of an edge table.
pub struct OsrmEdges<'a> {
    entry: RawEntry<'a>,
    pub number_of_edges: u64,
    current_edge_index: u64,
}

impl<'a> OsrmEdges<'a> {
    /// How many edges were read so far.
    pub closed spec fn position(&self) -> u64 {
        self.current_edge_index
    }

    /// How many edges the table holds.
    pub closed spec fn total(&self) -> u64 {
        self.number_of_edges
    }

    /// No edge is left to read.
    pub open spec fn is_exhausted(&self) -> bool {
        self.position() >= self.total()
    }

    fn new(entry: RawEntry<'a>) -> (r: Result<OsrmEdges<'a>, std::io::Error>)
        ensures
            r matches Ok(e) ==> e.position() == 0 && e.total() * EDGE_SIZE <= u64::MAX,
    {
        let size = match entry_size(&entry) {
            Ok(size) => size,
            Err(err) => {
                return Err(err);
            },
        };
        match record_count(size, EDGE_SIZE as u64) {
            Some(number_of_edges) => Ok(OsrmEdges { entry, number_of_edges, current_edge_index: 0 }),
            None => Err(invalid_data("Edge entry size is not divisible by the size of an edge.")),
        }
    }

    /// Reads and decodes the next edge. `None` once all edges were read, and
    /// on every call after that; an error where the payload ends early or
    /// cannot be read, in which case the position stays as it is.
    pub fn next(&mut self) -> (r: Option<Result<Edge, std::io::Error>>)
        ensures
            final(self).total() == old(self).total(),
            old(self).is_exhausted() ==> r is None && final(self).position() == old(self).position(),
            old(self).is_exhausted() ==> final(self).is_exhausted(),
            !old(self).is_exhausted() ==> r is Some,
            r matches Some(Ok(e)) ==> final(self).position() == old(self).position() + 1
                && exists|b: Seq<u8>| b.len() == EDGE_SIZE && e == #[trigger] edge_of(b),
            r matches Some(Err(_)) ==> final(self).position() == old(self).position(),
    {
        if self.current_edge_index >= self.number_of_edges {
            return None;
        }
        let mut buf: Vec<u8> = vec![0u8; EDGE_SIZE];
        if let Err(err) = read_record(&mut self.entry, &mut buf) {
            return Some(Err(err));
        }
        self.current_edge_index = self.current_edge_index + 1;
        let edge = decode_edge(buf.as_slice());
        Some(Ok(edge))
    }

    /// Reads all edges that are left, in table order. An error where one of
    /// them cannot be read.
    pub fn read_all(&mut self) -> (r: Result<Vec<Edge>, std::io::Error>)
        ensures
            final(self).total() == old(self).total(),
            r matches Ok(v) ==> final(self).is_exhausted() && (old(self).is_exhausted() ==> v.len() == 0)
                && (!old(self).is_exhausted() ==> v.len() == old(self).total() - old(self).position()),
    {
        let mut all: Vec<Edge> = Vec::new();
        loop
            invariant
                self.total() == old(self).total(),
                old(self).is_exhausted() ==> all.len() == 0 && self.position() == old(self).position(),
                !old(self).is_exhausted() ==> self.position() <= self.total() && all.len() == self.position() - old(self).position(),
            decreases self.total() - self.position(),
        {
            match self.next() {
                None => {
                    return Ok(all);
                },
                Some(Err(err)) => {
                    return Err(err);
                },
                Some(Ok(item)) => {
                    all.push(item);
                },
            }
        }
    }
}

} // verus!
