use raybaby::math::{F32, Vec2, Vec3};
use raybaby::quad::{
    index_bytes, quad_indices, quad_vertices, vertex_bytes, Vertex, MINUS_ONE, ONE, VERTEX_SIZE,
};

fn r(x: f32) -> F32 {
    F32::from_bits(x.to_bits())
}

fn at(x: f32, y: f32, z: f32, u: f32, v: f32) -> Vertex {
    Vertex { position: Vec3::new(r(x), r(y), r(z)), uvs: Vec2::new(r(u), r(v)) }
}

#[test]
fn the_rectangle_fills_the_picture() {
    assert_eq!(ONE, 1.0f32.to_bits());
    assert_eq!(MINUS_ONE, (-1.0f32).to_bits());
    assert_eq!(
        quad_vertices(),
        vec![
            at(-1.0, 1.0, 0.0, 0.0, 1.0),
            at(-1.0, -1.0, 0.0, 0.0, 0.0),
            at(1.0, -1.0, 0.0, 1.0, 0.0),
            at(1.0, 1.0, 0.0, 1.0, 1.0),
        ]
    );
    assert_eq!(quad_indices(), vec![0, 1, 2, 2, 3, 0]);
}

#[test]
fn index_bytes_are_the_words_in_memory() {
    let indices = quad_indices();
    let bytes = index_bytes(&indices);
    assert_eq!(bytes.len(), 4 * indices.len());
    let mut expected = Vec::new();
    for index in &indices {
        expected.extend_from_slice(&index.to_ne_bytes());
    }
    assert_eq!(bytes, expected);
    assert_eq!(index_bytes(&[0x0102_0304]), 0x0102_0304u32.to_ne_bytes().to_vec());
    assert_eq!(index_bytes(&[]), Vec::<u8>::new());
}

#[test]
fn vertex_bytes_are_five_numbers_for_each_vertex() {
    let vertices = quad_vertices();
    let bytes = vertex_bytes(&vertices);
    assert_eq!(bytes.len(), VERTEX_SIZE * 4);
    let numbers: [[f32; 5]; 4] = [
        [-1.0, 1.0, 0.0, 0.0, 1.0],
        [-1.0, -1.0, 0.0, 0.0, 0.0],
        [1.0, -1.0, 0.0, 1.0, 0.0],
        [1.0, 1.0, 0.0, 1.0, 1.0],
    ];
    let expected: &[u8] = bytemuck::cast_slice(&numbers);
    assert_eq!(&bytes[..], expected);
    assert_eq!(vertex_bytes(&[at(1.5, 2.5, 3.5, 4.5, 5.5)]).len(), 20);
    assert_eq!(
        &vertex_bytes(&[at(1.5, 2.5, 3.5, 4.5, 5.5)])[16..20],
        &5.5f32.to_ne_bytes()
    );
}
