use heavens::vertex::{SyncKind, VertexSync};

fn bits(p: [f32; 3]) -> [u32; 3] {
    [p[0].to_bits(), p[1].to_bits(), p[2].to_bits()]
}

#[test]
fn new_buffer_is_empty() {
    let v = VertexSync::new();
    assert_eq!(v.vertex_count(), 0);
    assert!(v.as_bytes().is_empty());
}

#[test]
fn first_sync_reallocates_with_little_endian_words() {
    let mut v = VertexSync::new();
    let kind = v.sync(&vec![[0x04030201, 0x08070605, 0x0c0b0a09]]);
    assert_eq!(kind, SyncKind::Reallocated);
    assert_eq!(v.vertex_count(), 1);
    assert_eq!(v.as_bytes(), &[1u8, 2, 3, 4, 5, 6, 7, 8, 9, 10, 11, 12][..]);
}

#[test]
fn sync_matches_float_layout() {
    let positions = [[1.0f32, -2.5, 0.0], [3.25, 1.0e6, -7.0]];
    let mut v = VertexSync::new();
    v.sync(&positions.iter().map(|p| bits(*p)).collect());
    let mut expected = Vec::new();
    for p in positions.iter() {
        for c in p.iter() {
            expected.extend_from_slice(&c.to_le_bytes());
        }
    }
    assert_eq!(v.as_bytes(), &expected[..]);
}

#[test]
fn sync_twice_is_byte_identical() {
    let positions = vec![bits([1.0, 2.0, 3.0]), bits([-4.0, 5.5, 0.125])];
    let mut v = VertexSync::new();
    assert_eq!(v.sync(&positions), SyncKind::Reallocated);
    let first = v.as_bytes().to_vec();
    assert_eq!(v.sync(&positions), SyncKind::Updated);
    assert_eq!(v.as_bytes(), &first[..]);
}

#[test]
fn moved_bodies_update_in_place() {
    let mut v = VertexSync::new();
    v.sync(&vec![bits([1.0, 2.0, 3.0])]);
    assert_eq!(v.sync(&vec![bits([1.5, 2.0, 3.0])]), SyncKind::Updated);
    assert_eq!(&v.as_bytes()[0..4], &1.5f32.to_le_bytes()[..]);
}

#[test]
fn count_change_reallocates() {
    let mut v = VertexSync::new();
    v.sync(&vec![bits([1.0, 2.0, 3.0])]);
    assert_eq!(
        v.sync(&vec![bits([1.0, 2.0, 3.0]), bits([0.0, 0.0, 0.0])]),
        SyncKind::Reallocated
    );
    assert_eq!(v.vertex_count(), 2);
    assert_eq!(v.sync(&Vec::new()), SyncKind::Reallocated);
    assert_eq!(v.vertex_count(), 0);
}
