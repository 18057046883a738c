use rail_mesh::error::MeshError;
use rail_mesh::ring::{sample, Ring};

const LENGTH: f32 = 21.5 / 21.5;
const WIDTH: f32 = 3.8 / 21.5;
const HEIGHT: f32 = 0.8 / 21.5;

type Point = (f32, f32, f32);

fn straight(n: usize) -> impl Fn(usize) -> Ring<Point> {
    move |i: usize| {
        let y = (i as f32) / (n as f32) * LENGTH;
        Ring {
            outer_top: (WIDTH / 2.0, y, HEIGHT / 2.0),
            outer_bottom: (WIDTH / 2.0, y, -HEIGHT / 2.0),
            inner_bottom: (-WIDTH / 2.0, y, -HEIGHT / 2.0),
            inner_top: (-WIDTH / 2.0, y, HEIGHT / 2.0),
        }
    }
}

fn arc(n: usize, span: f32) -> impl Fn(usize) -> Ring<Point> {
    move |i: usize| {
        let theta = span * (i as f32) / (n as f32);
        let (x, y) = (theta.cos(), theta.sin());
        let ro = LENGTH + WIDTH / 2.0;
        let ri = LENGTH - WIDTH / 2.0;
        Ring {
            outer_top: (ro * x - LENGTH, ro * y, HEIGHT / 2.0),
            outer_bottom: (ro * x - LENGTH, ro * y, -HEIGHT / 2.0),
            inner_bottom: (ri * x - LENGTH, ri * y, -HEIGHT / 2.0),
            inner_top: (ri * x - LENGTH, ri * y, HEIGHT / 2.0),
        }
    }
}

#[test]
fn sample_gives_four_vertices_per_ring() {
    for n in 1..=20usize {
        assert_eq!(sample(straight(n), n).unwrap().len(), 4 * (n + 1));
        assert_eq!(sample(arc(n, std::f32::consts::FRAC_PI_4), n).unwrap().len(), 4 * (n + 1));
    }
}

#[test]
fn straight_endpoints_of_one_segment() {
    let v = sample(straight(1), 1).unwrap();
    assert_eq!(v[0], (WIDTH / 2.0, 0.0, HEIGHT / 2.0));
    assert_eq!(v[6], (-WIDTH / 2.0, LENGTH, -HEIGHT / 2.0));
    assert_eq!(v[7], (-WIDTH / 2.0, LENGTH, HEIGHT / 2.0));
}

#[test]
fn rings_are_laid_out_corner_by_corner() {
    let n = 4usize;
    let place = straight(n);
    let v = sample(straight(n), n).unwrap();
    for i in 0..=n {
        let r = place(i);
        assert_eq!(v[4 * i], r.outer_top);
        assert_eq!(v[4 * i + 1], r.outer_bottom);
        assert_eq!(v[4 * i + 2], r.inner_bottom);
        assert_eq!(v[4 * i + 3], r.inner_top);
    }
}

#[test]
fn arc_of_zero_span_collapses_rings() {
    let n = 8usize;
    let v = sample(arc(n, 0.0), n).unwrap();
    for i in 0..=n {
        for k in 0..4 {
            assert_eq!(v[4 * i + k], v[k]);
        }
    }
    for p in &v {
        assert!(p.0.is_finite() && p.1.is_finite() && p.2.is_finite());
    }
}

#[test]
fn sample_twice_is_identical() {
    let a = sample(arc(16, std::f32::consts::FRAC_PI_4), 16).unwrap();
    let b = sample(arc(16, std::f32::consts::FRAC_PI_4), 16).unwrap();
    assert_eq!(a, b);
}

#[test]
fn sample_of_zero_segments_is_rejected() {
    assert_eq!(sample(straight(1), 0), Err(MeshError::InvalidSegmentCount));
}
