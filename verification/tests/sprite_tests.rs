use froginity::sprite::{quad_index_buffer, quad_indices};

#[test]
fn quad_is_two_triangles() {
    assert_eq!(quad_indices(), vec![0u16, 1, 2, 0, 2, 3]);
}

#[test]
fn quad_index_buffer_is_native_endian() {
    let bytes = quad_index_buffer();
    assert_eq!(bytes.len(), 12);
    let expected: Vec<u8> = [0u16, 1, 2, 0, 2, 3].iter().flat_map(|i| i.to_ne_bytes()).collect();
    assert_eq!(bytes, expected);
    let little = vec![0u8, 0, 1, 0, 2, 0, 0, 0, 2, 0, 3, 0];
    let big = vec![0u8, 0, 0, 1, 0, 2, 0, 0, 0, 2, 0, 3];
    assert!(bytes == little || bytes == big);
}
