use vstd::prelude::*;

verus! {

/// The vertex of a sprite's top left corner.
pub const TOP_LEFT: u16 = 0;
/// The vertex of a sprite's top right corner.
pub const TOP_RIGHT: u16 = 1;
/// The vertex of a sprite's bottom right corner.
pub const BOTTOM_RIGHT: u16 = 2;
/// The vertex of a sprite's bottom left corner.
pub const BOTTOM_LEFT: u16 = 3;

/// The index list of a quad: the triangle top left, top right, bottom right,
/// then the triangle top left, bottom right, bottom left.
pub open spec fn quad_index_seq() -> Seq<u16> {
    seq![TOP_LEFT, TOP_RIGHT, BOTTOM_RIGHT, TOP_LEFT, BOTTOM_RIGHT, BOTTOM_LEFT]
}

/// The indices that draw a sprite's four vertices as two triangles.
pub fn quad_indices() -> (r: Vec<u16>)
    ensures
        r@ == quad_index_seq(),
{
    let mut r: Vec<u16> = Vec::new();
    r.push(TOP_LEFT);
    r.push(TOP_RIGHT);
    r.push(BOTTOM_RIGHT);
    r.push(TOP_LEFT);
    r.push(BOTTOM_RIGHT);
    r.push(BOTTOM_LEFT);
    assert(r@ =~= quad_index_seq());
    r
}

/// `bytes` holds each value of `values` as two bytes, low byte first.
pub open spec fn little_endian_u16s(values: Seq<u16>, bytes: Seq<u8>) -> bool {
    &&& bytes.len() == 2 * values.len()
    &&& forall|i: int|
        0 <= i < values.len() ==> #[trigger] values[i] == bytes[2 * i] + 256 * bytes[2 * i + 1]
}

/// `bytes` holds each value of `values` as two bytes, high byte first.
pub open spec fn big_endian_u16s(values: Seq<u16>, bytes: Seq<u8>) -> bool {
    &&& bytes.len() == 2 * values.len()
    &&& forall|i: int|
        0 <= i < values.len() ==> #[trigger] values[i] == 256 * bytes[2 * i] + bytes[2 * i + 1]
}

/// `bytemuck::cast_slice` from `u16` to `u8`, copied out. The bytes are the
/// values' in-memory representation: two bytes per value, in the machine's
/// byte order, which is the same for every value. Which order that is the
/// contract leaves open, as it depends on the machine.
#[verifier::external_body]
fn cast_u16s_to_bytes(values: &[u16]) -> (bytes: Vec<u8>)
    ensures
        little_endian_u16s(values@, bytes@) || big_endian_u16s(values@, bytes@),
{
    bytemuck::cast_slice::<u16, u8>(values).to_vec()
}

/// The contents of a quad's index buffer: the quad's indices, two bytes each
/// in the machine's byte order, as the GPU reads a `Uint16` index buffer.
pub fn quad_index_buffer() -> (bytes: Vec<u8>)
    ensures
        little_endian_u16s(quad_index_seq(), bytes@) || big_endian_u16s(quad_index_seq(), bytes@),
{
    let indices = quad_indices();
    cast_u16s_to_bytes(indices.as_slice())
}

} // verus!
