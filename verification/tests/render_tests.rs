use texture_sharing::render::{quad_index_data, Quad};

#[test]
fn noninverting_quad_vertices() {
    let q = Quad { tex_size: 1, flipped: true };
    assert_eq!(q.vertices(), vec![-1, -1, 0, 1, -1, 1, 0, 0, 1, 1, 1, 0, 1, -1, 1, 1]);
}

#[test]
fn shared_texture_quad_vertices() {
    let q = Quad { tex_size: 1024, flipped: false };
    assert_eq!(q.vertices(), vec![-1, -1, 0, 0, -1, 1, 0, 1024, 1, 1, 1024, 1024, 1, -1, 1024, 0]);
}

#[test]
fn image_quad_vertices() {
    let q = Quad { tex_size: 256, flipped: true };
    assert_eq!(q.vertices(), vec![-1, -1, 0, 256, -1, 1, 0, 0, 1, 1, 256, 0, 1, -1, 256, 256]);
}

#[test]
fn flip_mirrors_v_coordinates() {
    let a = Quad { tex_size: 64, flipped: true }.vertices();
    let b = Quad { tex_size: 64, flipped: false }.vertices();
    for i in 0..16 {
        if i % 4 == 3 {
            assert_eq!(a[i], 64 - b[i]);
        } else {
            assert_eq!(a[i], b[i]);
        }
    }
}

#[test]
fn quad_indices_are_two_triangles() {
    let idx = quad_index_data();
    assert_eq!(idx, vec![0, 1, 2, 2, 3, 0]);
    assert!(idx.iter().all(|i| *i < 4));
}
