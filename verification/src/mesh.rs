//! Triangle indices of text and background meshes: each glyph is a quad of four vertices
//! (bottom-left, bottom-right, top-right, top-left) drawn as two triangles.
use vstd::prelude::*;

verus! {

/// Offsets, within a quad, of the six vertex indices of its two triangles.
pub open spec fn quad_corner(j: int) -> int {
    if j == 0 || j == 3 {
        0
    } else if j == 1 {
        1
    } else if j == 4 || j == 2 {
        2
    } else {
        3
    }
}

/// Index `j` (0..6) of quad `q`: the quad's first vertex is `4 * q`, kept in 16 bits by
/// dropping the high bits, as a `u16` cast does.
pub open spec fn spec_quad_index(q: int, j: int) -> int {
    (4 * q) % 65536 + quad_corner(j)
}

/// The six indices of the quad whose first vertex is `base`.
pub open spec fn spec_quad(base: u16) -> Seq<u16> {
    seq![base, (base + 1) as u16, (base + 2) as u16, base, (base + 2) as u16, (base + 3) as u16]
}

/// Appends the six indices of the quad whose first vertex is `base`.
pub fn push_quad_indices(indices: &mut Vec<u16>, base: u16)
    requires
        base % 4 == 0,
    ensures
        final(indices)@ == old(indices)@ + spec_quad(base),
        final(indices)@.len() == old(indices)@.len() + 6,
        forall|j: int|
            0 <= j < 6 ==> #[trigger] final(indices)@[old(indices)@.len() + j] == base + seq![
                0int,
                1,
                2,
                0,
                2,
                3,
            ][j],
{
    indices.push(base);
    indices.push(base + 1);
    indices.push(base + 2);
    indices.push(base);
    indices.push(base + 2);
    indices.push(base + 3);
    assert(indices@ =~= old(indices)@ + spec_quad(base));
    assert forall|j: int| 0 <= j < 6 implies #[trigger] indices@[old(indices)@.len() + j] == base
        + seq![0int, 1, 2, 0, 2, 3][j] by {
        if j == 0 {
        } else if j == 1 {
        } else if j == 2 {
        } else if j == 3 {
        } else if j == 4 {
        } else {
        }
    }
}

/// Index buffer of a text mesh with `quad_count` glyph quads.
pub fn text_mesh_indices(quad_count: usize) -> (indices: Vec<u16>)
    requires
        quad_count * 6 <= usize::MAX,
    ensures
        indices@.len() == 6 * quad_count,
        forall|q: int, j: int|
            0 <= q < quad_count && 0 <= j < 6 ==> #[trigger] indices@[6 * q + j] == spec_quad_index(q, j),
        forall|q: int, j: int|
            0 <= q < quad_count && 0 <= j < 6 ==> #[trigger] indices@[6 * q + j] == (4 * q) % 65536
                + seq![0int, 1, 2, 0, 2, 3][j],
{
    let mut indices: Vec<u16> = Vec::new();
    let mut q: usize = 0;
    let mut base: u16 = 0;
    while q < quad_count
        invariant
            q <= quad_count,
            quad_count * 6 <= usize::MAX,
            indices@.len() == 6 * q,
            base == (4 * q) % 65536,
            forall|p: int, j: int|
                0 <= p < q && 0 <= j < 6 ==> #[trigger] indices@[6 * p + j] == spec_quad_index(p, j),
        decreases quad_count - q,
    {
        let ghost prev = indices@;
        push_quad_indices(&mut indices, base);
        assert forall|p: int, j: int| 0 <= p < q + 1 && 0 <= j < 6 implies #[trigger] indices@[6 * p
            + j] == spec_quad_index(p, j) by {
            if p < q {
                assert(indices@[6 * p + j] == prev[6 * p + j]);
            } else {
                assert(indices@[6 * p + j] == spec_quad(base)[j]);
            }
        }
        if base == 65532 {
            base = 0;
        } else {
            base = base + 4;
        }
        q = q + 1;
    }
    proof {
        assert forall|q: int, j: int| 0 <= q < quad_count && 0 <= j < 6 implies #[trigger] indices@[6
            * q + j] == (4 * q) % 65536 + seq![0int, 1, 2, 0, 2, 3][j] by {
            lemma_quad_triangles(q);
        }
    }
    indices
}

/// Law: quad `q` is drawn as the triangles (first, first + 1, first + 2) and (first,
/// first + 2, first + 3), where its first vertex is `4 * q` kept in 16 bits; so both triangles
/// together use all four of its vertices.
pub proof fn lemma_quad_triangles(q: int)
    requires
        0 <= q,
    ensures
        ({
            let first = (4 * q) % 65536;
            &&& spec_quad_index(q, 0) == first
            &&& spec_quad_index(q, 1) == first + 1
            &&& spec_quad_index(q, 2) == first + 2
            &&& spec_quad_index(q, 3) == first
            &&& spec_quad_index(q, 4) == first + 2
            &&& spec_quad_index(q, 5) == first + 3
        }),
        forall|j: int| 0 <= j < 6 ==> #[trigger] spec_quad_index(q, j) == (4 * q) % 65536 + seq![
            0int,
            1,
            2,
            0,
            2,
            3,
        ][j],
{
    assert forall|j: int| 0 <= j < 6 implies #[trigger] spec_quad_index(q, j) == (4 * q) % 65536
        + seq![0int, 1, 2, 0, 2, 3][j] by {
        if j == 0 {
        } else if j == 1 {
        } else if j == 2 {
        } else if j == 3 {
        } else if j == 4 {
        } else {
        }
    }
}

/// Law: a text mesh of at most 16384 glyph quads only refers to its own vertices, and each
/// quad's triangles use the four vertices of that quad.
pub proof fn lemma_text_mesh_indices_in_range(quad_count: int, q: int, j: int)
    requires
        quad_count <= 16384,
        0 <= q < quad_count,
        0 <= j < 6,
    ensures
        4 * q <= spec_quad_index(q, j) < 4 * q + 4,
        spec_quad_index(q, j) < 4 * quad_count,
{
}

/// Index buffer of a single rectangle: the triangles `(0, 1, 2)` and `(0, 2, 3)`.
pub fn plane_indices() -> (indices: Vec<u16>)
    ensures
        indices@ == seq![0u16, 1, 2, 0, 2, 3],
{
    let mut indices: Vec<u16> = Vec::new();
    push_quad_indices(&mut indices, 0);
    assert(indices@ =~= seq![0u16, 1, 2, 0, 2, 3]);
    indices
}

} // verus!
