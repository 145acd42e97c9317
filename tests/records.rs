use osrmreader::{classify, decode_edge, decode_node, record_count, EntryKind, EDGE_SIZE, NODE_SIZE};

#[test]
fn decode_node_known_values() {
    let bytes: Vec<u8> = vec![64, 128, 48, 0, 98, 22, 68, 0, 1, 0, 0, 0, 0, 0, 0, 0];
    let n = decode_node(&bytes);
    assert_eq!(n.raw_longitude, 3178560);
    assert_eq!(n.raw_latitude, 4462178);
    assert_eq!(n.node_id, 1);
    let degrees = n.raw_longitude as f64 * 0.000001;
    assert!((degrees - 3.178560).abs() < 1e-9);
}

#[test]
fn decode_node_known_bytes() {
    let bytes: Vec<u8> = vec![64, 144, 48, 0, 98, 49, 68, 0, 1, 0, 0, 0, 0, 0, 0, 0];
    let n = decode_node(&bytes);
    assert_eq!(n.raw_longitude, 64 + 144 * 256 + 48 * 65536);
    assert_eq!(n.raw_longitude, 3182656);
    assert_eq!(n.raw_latitude, 98 + 49 * 256 + 68 * 65536);
    assert_eq!(n.raw_latitude, 4469090);
    assert_eq!(n.node_id, 1);
}

#[test]
fn decode_node_negative_fields() {
    let bytes: Vec<u8> = vec![255, 255, 255, 255, 0, 0, 0, 128, 254, 255, 255, 255, 255, 255, 255, 255];
    let n = decode_node(&bytes);
    assert_eq!(n.raw_longitude, -1);
    assert_eq!(n.raw_latitude, i32::MIN);
    assert_eq!(n.node_id, -2);
}

#[test]
fn decode_node_large_id() {
    let bytes: Vec<u8> = vec![1, 0, 0, 0, 0, 1, 0, 0, 1, 2, 3, 4, 5, 6, 7, 8];
    let n = decode_node(&bytes);
    assert_eq!(n.raw_longitude, 1);
    assert_eq!(n.raw_latitude, 256);
    assert_eq!(n.node_id, 0x0807060504030201);
}

#[test]
fn decode_edge_known_bytes() {
    let mut bytes: Vec<u8> = vec![0, 0, 0, 0, 1, 0, 0, 0];
    bytes.extend_from_slice(&[0u8; 24]);
    let e = decode_edge(&bytes);
    assert_eq!(e.source_node_index, 0);
    assert_eq!(e.target_node_index, 1);
}

#[test]
fn decode_edge_ignores_trailing_bytes() {
    let mut bytes: Vec<u8> = vec![7, 1, 0, 0, 255, 255, 255, 255];
    bytes.extend_from_slice(&[9u8; 24]);
    let e = decode_edge(&bytes);
    assert_eq!(e.source_node_index, 263);
    assert_eq!(e.target_node_index, u32::MAX);
}

#[test]
fn record_sizes() {
    assert_eq!(NODE_SIZE, 16);
    assert_eq!(EDGE_SIZE, 32);
}

#[test]
fn record_count_whole_tables() {
    assert_eq!(record_count(48, 16), Some(3));
    assert_eq!(record_count(64, 32), Some(2));
    assert_eq!(record_count(0, 16), Some(0));
    assert_eq!(record_count(0, 32), Some(0));
}

#[test]
fn record_count_misaligned_sizes() {
    assert_eq!(record_count(17, 16), None);
    assert_eq!(record_count(48, 32), None);
    assert_eq!(record_count(u64::MAX, 16), None);
}

#[test]
fn classify_known_paths() {
    assert_eq!(classify(&Some("/extractor/nodes".to_string())), EntryKind::Nodes);
    assert_eq!(classify(&Some("/extractor/edges".to_string())), EntryKind::Edges);
}

#[test]
fn classify_other_paths() {
    assert_eq!(classify(&Some(String::new())), EntryKind::Unknown);
    assert_eq!(classify(&Some("extractor/nodes".to_string())), EntryKind::Unknown);
    assert_eq!(classify(&Some("/extractor/nodes/".to_string())), EntryKind::Unknown);
    assert_eq!(classify(&Some("/extractor/Edges".to_string())), EntryKind::Unknown);
    assert_eq!(classify(&Some("/extractor/names".to_string())), EntryKind::Unknown);
    assert_eq!(classify(&None), EntryKind::Unknown);
}
