//! Fixed-width binary records of the node and edge tables.
use byteorder::{ByteOrder, LittleEndian};
use vstd::prelude::*;
use vstd::slice::slice_subrange;

verus! {

/// Size of a node record in bytes.
pub const NODE_SIZE: usize = 16;

/// Size of an edge record in bytes.
pub const EDGE_SIZE: usize = 32;

/// The unsigned value of `b`, least significant byte first.
pub open spec fn le_value(b: Seq<u8>) -> nat
    decreases b.len(),
{
    if b.len() == 0 {
        0
    } else {
        b[0] as nat + 256 * le_value(b.drop_first())
    }
}

/// The two's complement reading of an unsigned value `v` of `bits` bits.
pub open spec fn signed(v: nat, bits: nat) -> int {
    if v >= pow2(bits) / 2 {
        v - pow2(bits)
    } else {
        v as int
    }
}

/// Two to the power `n`.
pub open spec fn pow2(n: nat) -> nat
    decreases n,
{
    if n == 0 {
        1
    } else {
        2 * pow2((n - 1) as nat)
    }
}

/// The little-endian unsigned integer in bytes `[start, start + width)` of `b`.
pub open spec fn field(b: Seq<u8>, start: int, width: int) -> nat {
    le_value(b.subrange(start, start + width))
}

/// A node, a 2D point with latitude and longitude coordinates.
#[derive(Clone, Copy, Debug, PartialEq, Eq, Structural)]
pub struct Node {
    /// raw_longitude = longitude * 1000000
    pub raw_longitude: i32,
    /// raw_latitude = latitude * 1000000
    pub raw_latitude: i32,
    /// A node ID, usually the OSM node ID of the original node.
    pub node_id: i64,
}

/// A connection between two nodes (source and target).
///
/// Nodes are referenced by their index, which starts at zero and is the order
/// in which the nodes are stored. The node index is not the node ID.
#[derive(Clone, Copy, Debug, PartialEq, Eq, Structural)]
pub struct Edge {
    /// Index of the first point of the edge.
    pub source_node_index: u32,
    /// Index of the second point of the edge.
    pub target_node_index: u32,
}

/// The node that the 16 bytes `b` encode: longitude in bytes 0..4, latitude
/// in bytes 4..8, node ID in bytes 8..16.
pub open spec fn node_of(b: Seq<u8>) -> Node {
    Node {
        raw_longitude: signed(field(b, 0, 4), 32) as i32,
        raw_latitude: signed(field(b, 4, 4), 32) as i32,
        node_id: signed(field(b, 8, 8), 64) as i64,
    }
}

/// The edge that the 32 bytes `b` encode: source index in bytes 0..4, target
/// index in bytes 4..8; the other 24 bytes are not read.
pub open spec fn edge_of(b: Seq<u8>) -> Edge {
    Edge {
        source_node_index: field(b, 0, 4) as u32,
        target_node_index: field(b, 4, 4) as u32,
    }
}

/// Relies on byteorder's `LittleEndian::read_u32`, which reads the first
/// four bytes of `buf`, least significant first, and panics on fewer.
#[verifier::external_body]
fn read_u32_le(buf: &[u8]) -> (r: u32)
    requires
        buf@.len() >= 4,
    ensures
        r as nat == field(buf@, 0, 4),
{
    LittleEndian::read_u32(buf)
}

/// Relies on byteorder's `LittleEndian::read_i32`, the first four bytes of
/// `buf` read as `read_u32` does and taken as two's complement.
#[verifier::external_body]
fn read_i32_le(buf: &[u8]) -> (r: i32)
    requires
        buf@.len() >= 4,
    ensures
        r as int == signed(field(buf@, 0, 4), 32),
{
    LittleEndian::read_i32(buf)
}

/// Relies on byteorder's `LittleEndian::read_i64`, the first eight bytes of
/// `buf`, least significant first, taken as two's complement.
#[verifier::external_body]
fn read_i64_le(buf: &[u8]) -> (r: i64)
    requires
        buf@.len() >= 8,
    ensures
        r as int == signed(field(buf@, 0, 8), 64),
{
    LittleEndian::read_i64(buf)
}

proof fn lemma_field_of_window(b: Seq<u8>, start: int, width: int)
    requires
        0 <= start,
        0 <= width,
        start + width <= b.len(),
    ensures
        field(b.subrange(start, start + width), 0, width) == field(b, start, width),
{
    assert(b.subrange(start, start + width).subrange(0, width) =~= b.subrange(start, start + width));
}

/// Decodes one node record.
pub fn decode_node(buf: &[u8]) -> (r: Node)
    requires
        buf@.len() == NODE_SIZE,
    ensures
        r == node_of(buf@),
{
    let lon = read_i32_le(slice_subrange(buf, 0, 4));
    let lat = read_i32_le(slice_subrange(buf, 4, 8));
    let id = read_i64_le(slice_subrange(buf, 8, 16));
    proof {
        lemma_field_of_window(buf@, 0, 4);
        lemma_field_of_window(buf@, 4, 4);
        lemma_field_of_window(buf@, 8, 8);
    }
    Node { raw_longitude: lon, raw_latitude: lat, node_id: id }
}

/// Decodes one edge record.
pub fn decode_edge(buf: &[u8]) -> (r: Edge)
    requires
        buf@.len() == EDGE_SIZE,
    ensures
        r == edge_of(buf@),
{
    let source = read_u32_le(slice_subrange(buf, 0, 4));
    let target = read_u32_le(slice_subrange(buf, 4, 8));
    proof {
        lemma_field_of_window(buf@, 0, 4);
        lemma_field_of_window(buf@, 4, 4);
    }
    Edge { source_node_index: source, target_node_index: target }
}

} // verus!
