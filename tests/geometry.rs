use gpu_quad::geometry::{
    quad_draw_call, quad_index_bytes, quad_indices, quad_vertices, Vertex, QUAD_INDEX_COUNT,
    QUAD_VERTEX_COUNT, UNIFORM_BYTES,
};

#[test]
fn indices_follow_quad_pattern() {
    assert_eq!(quad_indices(), vec![0u16, 1, 2, 2, 1, 3]);
    assert_eq!(quad_indices().len(), QUAD_INDEX_COUNT);
}

#[test]
fn four_vertices_in_pixel_space() {
    let v = quad_vertices();
    assert_eq!(v.len(), QUAD_VERTEX_COUNT);
    assert_eq!((v[0].x, v[0].y), (25, 25));
    assert_eq!((v[1].x, v[1].y), (750, 25));
    assert_eq!((v[2].x, v[2].y), (25, 750));
    assert_eq!((v[3].x, v[3].y), (750, 750));
    assert_eq!((v[2].red, v[2].green, v[2].blue, v[2].alpha), (60, 10, 80, 100));
}

#[test]
fn every_index_names_a_vertex() {
    let n = quad_vertices().len();
    for i in quad_indices() {
        assert!((i as usize) < n);
    }
}

#[test]
fn color_hundredths_give_the_float_channels() {
    let v = quad_vertices();
    assert_eq!(v[0].red as f32 / 100.0, 0.3f32);
    assert_eq!(v[0].green as f32 / 100.0, 0.5f32);
    assert_eq!(v[0].blue as f32 / 100.0, 0.8f32);
    assert_eq!(v[2].green as f32 / 100.0, 0.1f32);
    assert_eq!(v[3].blue as f32 / 100.0, 0.6f32);
}

#[test]
fn index_bytes_hold_the_indices() {
    let b = quad_index_bytes();
    assert_eq!(b.len(), 12);
    let back: Vec<u16> = b.chunks(2).map(|c| u16::from_ne_bytes([c[0], c[1]])).collect();
    assert_eq!(back, vec![0u16, 1, 2, 2, 1, 3]);
    assert_ne!(b[2..4], [0u8, 0u8]);
}

#[test]
fn vertex_layout_is_packed() {
    let l = Vertex::impl_vertex();
    assert_eq!(l.array_stride, 24);
    assert_eq!(l.attributes.len(), 2);
    assert_eq!((l.attributes[0].offset, l.attributes[0].shader_location, l.attributes[0].components), (0, 0, 2));
    assert_eq!((l.attributes[1].offset, l.attributes[1].shader_location, l.attributes[1].components), (8, 1, 4));
}

#[test]
fn draw_call_reads_all_indices_once() {
    let d = quad_draw_call();
    assert_eq!((d.first_index, d.end_index), (0, 6));
    assert_eq!(d.base_vertex, 0);
    assert_eq!((d.first_instance, d.end_instance), (0, 1));
    assert_eq!(UNIFORM_BYTES, 64);
}
