//! The text mesh: the flat list of coordinates that a font renderer hands
//! over, regrouped into the vertices of a triangle list.
//!
//! The coordinates pass through untouched, whatever scalar type the
//! renderer uses.

use vstd::prelude::*;

verus! {

/// The vertices of a triangle list, three coordinates each, and one texture
/// coordinate pair for every vertex.
#[derive(Debug, PartialEq, Eq)]
pub struct TextMesh<S> {
    pub positions: Vec<[S; 3]>,
    pub uvs: Vec<[S; 2]>,
}

/// Vertex number `index` of a flat coordinate list.
pub open spec fn vertex_at<S>(vertices: Seq<S>, index: int) -> Seq<S> {
    seq![vertices[3 * index], vertices[3 * index + 1], vertices[3 * index + 2]]
}

/// Regroups a flat coordinate list `x, y, z, x, y, z, ...` into vertices, in
/// order, and gives every vertex the texture coordinates `(zero, zero)`. A
/// list that does not divide into whole vertices is refused.
pub fn generate_text<S: Copy>(vertices: &Vec<S>, zero: S) -> (mesh: Option<TextMesh<S>>)
    ensures
        vertices.len() % 3 != 0 ==> mesh is None,
        vertices.len() % 3 == 0 ==> mesh is Some,
        mesh matches Some(made) ==> {
            &&& made.positions.len() == vertices.len() / 3
            &&& made.uvs.len() == made.positions.len()
            &&& forall|index: int|
                0 <= index < made.positions.len() ==> (#[trigger] made.positions[index])@
                    == vertex_at(vertices@, index)
            &&& forall|index: int|
                0 <= index < made.uvs.len() ==> (#[trigger] made.uvs[index])@ == seq![zero, zero]
        },
{
    if vertices.len() % 3 != 0 {
        return None;
    }
    let count: usize = vertices.len() / 3;
    let mut positions: Vec<[S; 3]> = Vec::new();
    let mut uvs: Vec<[S; 2]> = Vec::new();
    let mut index: usize = 0;
    while index < count
        invariant
            index <= count,
            count == vertices.len() / 3,
            vertices.len() % 3 == 0,
            positions.len() == index,
            uvs.len() == index,
            forall|n: int|
                0 <= n < index ==> (#[trigger] positions[n])@ == vertex_at(vertices@, n),
            forall|n: int| 0 <= n < index ==> (#[trigger] uvs[n])@ == seq![zero, zero],
        decreases count - index,
    {
        let vertex: [S; 3] = [vertices[3 * index], vertices[3 * index + 1], vertices[3 * index + 2]];
        let uv: [S; 2] = [zero, zero];
        assert(vertex@ =~= vertex_at(vertices@, index as int));
        assert(uv@ =~= seq![zero, zero]);
        positions.push(vertex);
        uvs.push(uv);
        index = index + 1;
    }
    Some(TextMesh { positions, uvs })
}

} // verus!
