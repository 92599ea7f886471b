//! The fixed quad geometry: six vertices, two triangles, covering the
//! whole normalized-device-coordinate viewport.

use vstd::prelude::*;

verus! {

/// Byte size of one packed vertex: three 4-byte single-precision floats.
pub const VERTEX_STRIDE: u32 = 12;

/// The six corner positions of the full-screen quad in normalized device
/// coordinates: two triangles that together cover the square from
/// (-1, -1) to (1, 1), every vertex lying in the z = 0 plane.
pub open spec fn quad_vertices() -> Seq<(int, int, int)> {
    seq![
        (-1int, -1int, 0int),
        (1int, -1int, 0int),
        (1int, 1int, 0int),
        (-1int, 1int, 0int),
        (-1int, -1int, 0int),
        (1int, 1int, 0int),
    ]
}

/// Little-endian IEEE 754 single-precision encoding of a coordinate
/// value. The quad only ever uses the values -1, 0 and 1.
pub open spec fn coord_bytes(c: int) -> Seq<u8> {
    if c == -1 {
        seq![0x00u8, 0x00u8, 0x80u8, 0xbfu8]
    } else if c == 1 {
        seq![0x00u8, 0x00u8, 0x80u8, 0x3fu8]
    } else {
        seq![0x00u8, 0x00u8, 0x00u8, 0x00u8]
    }
}

/// The twelve bytes of one packed vertex.
pub open spec fn vertex_bytes(v: (int, int, int)) -> Seq<u8> {
    coord_bytes(v.0) + coord_bytes(v.1) + coord_bytes(v.2)
}

/// The byte image of the whole quad as it is uploaded to the vertex
/// buffer: six vertices of three floats each, tightly packed.
pub open spec fn quad_vertex_data() -> Seq<u8> {
    vertex_bytes(quad_vertices()[0]) + vertex_bytes(quad_vertices()[1])
        + vertex_bytes(quad_vertices()[2]) + vertex_bytes(quad_vertices()[3])
        + vertex_bytes(quad_vertices()[4]) + vertex_bytes(quad_vertices()[5])
}

fn push_coord(data: &mut Vec<u8>, c: i32)
    requires
        c == -1 || c == 0 || c == 1,
    ensures
        final(data)@ == old(data)@ + coord_bytes(c as int),
{
    if c == -1 {
        data.push(0x00);
        data.push(0x00);
        data.push(0x80);
        data.push(0xbf);
    } else if c == 1 {
        data.push(0x00);
        data.push(0x00);
        data.push(0x80);
        data.push(0x3f);
    } else {
        data.push(0x00);
        data.push(0x00);
        data.push(0x00);
        data.push(0x00);
    }
    proof {
        assert(data@ =~= old(data)@ + coord_bytes(c as int));
    }
}

fn push_vertex(data: &mut Vec<u8>, x: i32, y: i32, z: i32)
    requires
        x == -1 || x == 0 || x == 1,
        y == -1 || y == 0 || y == 1,
        z == -1 || z == 0 || z == 1,
    ensures
        final(data)@ == old(data)@ + vertex_bytes((x as int, y as int, z as int)),
{
    push_coord(data, x);
    push_coord(data, y);
    push_coord(data, z);
    proof {
        assert(data@ =~= old(data)@ + vertex_bytes((x as int, y as int, z as int)));
    }
}

/// Builds the packed byte image of the quad, exactly as
/// [`quad_vertex_data`] describes it.
pub fn quad_vertex_data_bytes() -> (data: Vec<u8>)
    ensures
        data@ == quad_vertex_data(),
{
    let mut data: Vec<u8> = Vec::new();
    push_vertex(&mut data, -1, -1, 0);
    push_vertex(&mut data, 1, -1, 0);
    push_vertex(&mut data, 1, 1, 0);
    push_vertex(&mut data, -1, 1, 0);
    push_vertex(&mut data, -1, -1, 0);
    push_vertex(&mut data, 1, 1, 0);
    proof {
        assert(data@ =~= quad_vertex_data());
    }
    data
}

/// The uploaded vertex buffer always holds exactly six vertices of three
/// floats each, and their values form two triangles that share the main
/// diagonal of the normalized-device-coordinate square from (-1, -1) to
/// (1, 1), so that together they cover that square exactly.
pub proof fn lemma_quad_covers_viewport()
    ensures
        quad_vertices().len() == 6,
        quad_vertex_data().len() == 72,
        forall|i: int| 0 <= i < 6 ==> (#[trigger] quad_vertices()[i]).2 == 0,
        forall|i: int|
            0 <= i < 6 ==> ((#[trigger] quad_vertices()[i]).0 == -1 || quad_vertices()[i].0 == 1),
        forall|i: int|
            0 <= i < 6 ==> ((#[trigger] quad_vertices()[i]).1 == -1 || quad_vertices()[i].1 == 1),
        quad_vertices().subrange(0, 3) =~= seq![(-1int, -1int, 0int), (1int, -1int, 0int), (1int, 1int, 0int)],
        quad_vertices().subrange(3, 6) =~= seq![(-1int, 1int, 0int), (-1int, -1int, 0int), (1int, 1int, 0int)],
        forall|i: int|
            0 <= i < 6 ==> quad_vertex_data().subrange(12 * i, 12 * i + 12) =~= vertex_bytes(
                #[trigger] quad_vertices()[i],
            ),
{
    assert forall|i: int| 0 <= i < 6 implies quad_vertex_data().subrange(12 * i, 12 * i + 12)
        =~= vertex_bytes(#[trigger] quad_vertices()[i]) by {
        if i == 0 {
            assert(quad_vertex_data().subrange(0, 12) =~= vertex_bytes(quad_vertices()[0]));
        } else if i == 1 {
            assert(quad_vertex_data().subrange(12, 24) =~= vertex_bytes(quad_vertices()[1]));
        } else if i == 2 {
            assert(quad_vertex_data().subrange(24, 36) =~= vertex_bytes(quad_vertices()[2]));
        } else if i == 3 {
            assert(quad_vertex_data().subrange(36, 48) =~= vertex_bytes(quad_vertices()[3]));
        } else if i == 4 {
            assert(quad_vertex_data().subrange(48, 60) =~= vertex_bytes(quad_vertices()[4]));
        } else {
            assert(quad_vertex_data().subrange(60, 72) =~= vertex_bytes(quad_vertices()[5]));
        }
    }
}

} // verus!
