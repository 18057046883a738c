use rail_mesh::error::MeshError;
use rail_mesh::stitch::{stitch, Triangle};

fn tri(a: u32, b: u32, c: u32) -> Triangle {
    Triangle { a, b, c }
}

#[test]
fn stitch_gives_eight_triangles_per_segment() {
    for n in 1..=20usize {
        let t = stitch(n).unwrap();
        assert_eq!(t.len(), 8 * n);
    }
}

#[test]
fn stitch_indices_stay_below_vertex_count() {
    for n in 1..=20usize {
        let t = stitch(n).unwrap();
        let count = (4 * (n + 1)) as u32;
        for x in &t {
            assert!(x.a < count && x.b < count && x.c < count);
        }
        let top = t.iter().map(|x| x.a.max(x.b).max(x.c)).max().unwrap();
        assert_eq!(top, count - 1);
    }
}

#[test]
fn stitch_twice_is_identical() {
    assert_eq!(stitch(7).unwrap(), stitch(7).unwrap());
}

#[test]
fn first_segment_winding() {
    let t = stitch(1).unwrap();
    let expected = vec![
        tri(3, 0, 7),
        tri(7, 0, 4),
        tri(5, 1, 6),
        tri(6, 1, 2),
        tri(2, 3, 6),
        tri(6, 3, 7),
        tri(4, 0, 5),
        tri(5, 0, 1),
    ];
    assert_eq!(t, expected);
}

#[test]
fn later_segments_are_shifted_by_one_ring() {
    let t = stitch(3).unwrap();
    let first = stitch(1).unwrap();
    for i in 0..3u32 {
        for k in 0..8usize {
            let f = first[k];
            assert_eq!(t[8 * i as usize + k], tri(f.a + 4 * i, f.b + 4 * i, f.c + 4 * i));
        }
    }
}

#[test]
fn stitch_of_zero_segments_is_rejected() {
    assert_eq!(stitch(0), Err(MeshError::InvalidSegmentCount));
}
