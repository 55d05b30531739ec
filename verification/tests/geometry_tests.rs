use sdf_quad::geometry::{quad_indices, quad_vertices, BLACK};

fn doubled_signed_area(a: [i8; 2], b: [i8; 2], c: [i8; 2]) -> i32 {
    let (ax, ay) = (a[0] as i32, a[1] as i32);
    let (bx, by) = (b[0] as i32, b[1] as i32);
    let (cx, cy) = (c[0] as i32, c[1] as i32);
    (bx - ax) * (cy - ay) - (by - ay) * (cx - ax)
}

#[test]
fn index_list_is_two_triangles() {
    assert_eq!(quad_indices(), vec![0u16, 1, 2, 2, 3, 0]);
}

#[test]
fn triangles_share_the_diagonal() {
    let ix = quad_indices();
    // Triangle one is (ix[0], ix[1], ix[2]), triangle two is
    // (ix[3], ix[4], ix[5]); they share the corners 0 and 2.
    assert_eq!(ix[3], ix[2]);
    assert_eq!(ix[5], ix[0]);
}

#[test]
fn vertices_are_the_square_corners_in_black() {
    let v = quad_vertices();
    assert_eq!(v.len(), 4);
    assert_eq!(v[0].pos, [1, -1]);
    assert_eq!(v[1].pos, [-1, -1]);
    assert_eq!(v[2].pos, [-1, 1]);
    assert_eq!(v[3].pos, [1, 1]);
    for vert in &v {
        assert_eq!(vert.colour, BLACK);
        assert_eq!(vert.colour, [0, 0, 0, 255]);
    }
    // All four corners are distinct: together with the ±1 coordinates
    // they cover the whole clip-space square.
    for i in 0..4 {
        for j in 0..4 {
            if i != j {
                assert_ne!(v[i].pos, v[j].pos);
            }
        }
    }
}

#[test]
fn winding_is_consistent() {
    let v = quad_vertices();
    let ix = quad_indices();
    let t1 = doubled_signed_area(
        v[ix[0] as usize].pos,
        v[ix[1] as usize].pos,
        v[ix[2] as usize].pos,
    );
    let t2 = doubled_signed_area(
        v[ix[3] as usize].pos,
        v[ix[4] as usize].pos,
        v[ix[5] as usize].pos,
    );
    assert_eq!(t1, -4);
    assert_eq!(t2, -4);
    // Same sign: both triangles wind the same way, and together their
    // area is that of the whole [-1, 1] × [-1, 1] square.
    assert_eq!(t1.abs() + t2.abs(), 8);
}

fn in_triangle(a: (i32, i32), b: (i32, i32), c: (i32, i32), p: (i32, i32)) -> bool {
    let cross = |a: (i32, i32), b: (i32, i32), p: (i32, i32)| {
        (b.0 - a.0) * (p.1 - a.1) - (b.1 - a.1) * (p.0 - a.0)
    };
    cross(a, b, p) <= 0 && cross(b, c, p) <= 0 && cross(c, a, p) <= 0
}

#[test]
fn triangles_cover_the_square() {
    // Sample the square on a 41×41 grid (denominator 20): every point
    // must land in at least one of the two clockwise triangles.
    let d: i32 = 20;
    let t1 = ((d, -d), (-d, -d), (-d, d));
    let t2 = ((-d, d), (d, d), (d, -d));
    for px in -d..=d {
        for py in -d..=d {
            assert!(
                in_triangle(t1.0, t1.1, t1.2, (px, py))
                    || in_triangle(t2.0, t2.1, t2.2, (px, py)),
                "point ({}, {}) over {} is outside both triangles",
                px,
                py,
                d
            );
        }
    }
}
