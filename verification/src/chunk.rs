//! The layout of one terrain chunk: a square grid of `size * size` vertices,
//! stored row-major, and the triangle list that covers its cells.
//!
//! Neighbouring chunks share their border: chunk `c` starts sampling the
//! world at `c * (size - 1)`, so its last row or column samples exactly the
//! points of the first row or column of the next chunk.

use vstd::prelude::*;
use vstd::arithmetic::div_mod::lemma_fundamental_div_mod;
use vstd::arithmetic::div_mod::lemma_fundamental_div_mod_converse;

verus! {

/// Why a chunk could not be laid out.
#[derive(Clone, Copy, Debug, PartialEq, Eq, Structural)]
pub enum ChunkError {
    /// The edge length is below two vertices, so no triangle can form.
    InvalidArgument,
    /// A sampling coordinate lies beyond `MAX_COORDINATE`, or a vertex
    /// number beyond 32 bits.
    NumericOverflow,
}

/// Largest edge length whose vertex numbers fit 32 bits.
pub const MAX_SIZE: u64 = 65535;

/// Largest sampling coordinate, two to the power of 53. Heights are sampled
/// in double precision, which holds every whole number up to here exactly;
/// beyond it neighbouring grid points would no longer be told apart.
pub const MAX_COORDINATE: u64 = 9_007_199_254_740_992;

/// One vertex of the grid: its place in the chunk and the point of the world
/// whose height it takes.
#[derive(Clone, Copy, Debug, PartialEq, Eq, Structural)]
pub struct GridPoint {
    pub local_i: u64,
    pub local_j: u64,
    pub world_i: u64,
    pub world_j: u64,
}

/// A laid-out chunk. `points` holds the vertices row-major (`i * size + j`),
/// `indices` three vertex numbers per triangle.
#[derive(Debug)]
pub struct ChunkGrid {
    pub size: u64,
    pub chunk_x: u64,
    pub chunk_z: u64,
    pub seed: u32,
    pub points: Vec<GridPoint>,
    pub indices: Vec<u32>,
}

/// Where chunk number `chunk` starts sampling along one axis.
pub open spec fn axis_offset(size: int, chunk: int) -> int {
    chunk * (size - 1)
}

/// Number of vertices of a chunk.
pub open spec fn vertex_count(size: int) -> int {
    size * size
}

/// Number of entries of the triangle list: two triangles for each cell.
pub open spec fn index_count(size: int) -> int {
    6 * ((size - 1) * (size - 1))
}

/// The world point that vertex `(i, j)` of chunk `(chunk_x, chunk_z)` samples.
pub open spec fn world_point(size: int, chunk_x: int, chunk_z: int, i: int, j: int) -> (int, int) {
    (axis_offset(size, chunk_x) + i, axis_offset(size, chunk_z) + j)
}

/// The vertex stored at place `k` of the vertex buffer.
pub open spec fn point_at(size: int, chunk_x: int, chunk_z: int, k: int) -> GridPoint {
    GridPoint {
        local_i: (k / size) as u64,
        local_j: (k % size) as u64,
        world_i: world_point(size, chunk_x, chunk_z, k / size, k % size).0 as u64,
        world_j: world_point(size, chunk_x, chunk_z, k / size, k % size).1 as u64,
    }
}

/// The vertex buffer of a chunk.
pub open spec fn grid_points(size: int, chunk_x: int, chunk_z: int) -> Seq<GridPoint> {
    Seq::new(vertex_count(size) as nat, |k: int| point_at(size, chunk_x, chunk_z, k))
}

/// Vertex number that cell `(i, j)` contributes as the `corner`-th entry of
/// its two triangles: (top left, top right, bottom left) and
/// (top right, bottom right, bottom left).
pub open spec fn cell_corner(size: int, i: int, j: int, corner: int) -> int {
    let top_left = i * size + j;
    if corner == 0 {
        top_left
    } else if corner == 1 || corner == 3 {
        top_left + 1
    } else if corner == 2 || corner == 5 {
        top_left + size
    } else {
        top_left + size + 1
    }
}

/// The entry at place `p` of the triangle list: cells come row-major, six
/// entries each.
pub open spec fn index_at(size: int, p: int) -> int {
    cell_corner(size, (p / 6) / (size - 1), (p / 6) % (size - 1), p % 6)
}

/// Twice the signed area of the triangle with vertex numbers `a`, `b`, `c`,
/// measured over the rows and columns of the grid. Its sign tells which way
/// round the triangle is wound.
pub open spec fn doubled_area(size: int, a: int, b: int, c: int) -> int {
    (b / size - a / size) * (c % size - a % size) - (b % size - a % size) * (c / size - a / size)
}

/// The triangle list of a chunk.
pub open spec fn grid_indices(size: int) -> Seq<u32> {
    Seq::new(index_count(size) as nat, |p: int| index_at(size, p) as u32)
}

/// Whether every vertex number fits `u32` and every sampling coordinate,
/// up to the last one on each axis, lies within `MAX_COORDINATE`.
pub open spec fn fits(size: int, chunk_x: int, chunk_z: int) -> bool {
    &&& vertex_count(size) <= u32::MAX
    &&& axis_offset(size, chunk_x) + (size - 1) <= MAX_COORDINATE
    &&& axis_offset(size, chunk_z) + (size - 1) <= MAX_COORDINATE
}

/// The error that laying out a chunk ends in, if any.
pub open spec fn layout_error(size: int, chunk_x: int, chunk_z: int) -> Option<ChunkError> {
    if size < 2 {
        Some(ChunkError::InvalidArgument)
    } else if !fits(size, chunk_x, chunk_z) {
        Some(ChunkError::NumericOverflow)
    } else {
        None
    }
}

impl ChunkGrid {
    /// The grid is the layout of chunk `(chunk_x, chunk_z)` with edge `size`.
    pub open spec fn is_layout_of(&self, size: u64, chunk_x: u64, chunk_z: u64, seed: u32) -> bool {
        &&& self.size == size
        &&& self.chunk_x == chunk_x
        &&& self.chunk_z == chunk_z
        &&& self.seed == seed
        &&& self.points@ == grid_points(size as int, chunk_x as int, chunk_z as int)
        &&& self.indices@ == grid_indices(size as int)
    }
}

/// The vertex count fits 32 bits exactly up to an edge of `MAX_SIZE`.
proof fn lemma_vertex_count_bound(size: int)
    requires
        size >= 0,
    ensures
        vertex_count(size) <= u32::MAX <==> size <= MAX_SIZE,
{
    if size <= MAX_SIZE {
        assert(size * size <= 65535 * 65535) by (nonlinear_arith)
            requires
                0 <= size <= 65535,
        ;
    } else {
        assert(size * size >= 65536 * 65536) by (nonlinear_arith)
            requires
                size >= 65536,
        ;
    }
}

/// Start of a chunk along one axis, or `None` where the chunk's last sample
/// on that axis would lie beyond `MAX_COORDINATE`.
fn bounded_axis_offset(size: u64, chunk: u64) -> (r: Option<u64>)
    requires
        2 <= size <= MAX_SIZE,
    ensures
        match r {
            Some(offset) => offset == axis_offset(size as int, chunk as int) && offset + (size - 1)
                <= MAX_COORDINATE,
            None => axis_offset(size as int, chunk as int) + (size - 1) > MAX_COORDINATE,
        },
{
    let span: u64 = size - 1;
    match chunk.checked_mul(span) {
        Some(offset) => {
            if offset > MAX_COORDINATE - span {
                None
            } else {
                Some(offset)
            }
        },
        None => None,
    }
}

/// Vertices of a chunk that starts sampling at `(x_offset, z_offset)`.
fn build_points(size: u64, chunk_x: u64, chunk_z: u64, x_offset: u64, z_offset: u64) -> (points:
    Vec<GridPoint>)
    requires
        2 <= size <= MAX_SIZE,
        x_offset == axis_offset(size as int, chunk_x as int),
        z_offset == axis_offset(size as int, chunk_z as int),
        x_offset + (size - 1) <= u64::MAX,
        z_offset + (size - 1) <= u64::MAX,
    ensures
        points@ == grid_points(size as int, chunk_x as int, chunk_z as int),
{
    let mut points: Vec<GridPoint> = Vec::new();
    let mut i: u64 = 0;
    while i < size
        invariant
            2 <= size <= MAX_SIZE,
            i <= size,
            x_offset == axis_offset(size as int, chunk_x as int),
            z_offset == axis_offset(size as int, chunk_z as int),
            x_offset + (size - 1) <= u64::MAX,
            z_offset + (size - 1) <= u64::MAX,
            points@.len() == i * size,
            forall|k: int|
                0 <= k < points@.len() ==> points@[k] == point_at(
                    size as int,
                    chunk_x as int,
                    chunk_z as int,
                    k,
                ),
        decreases size - i,
    {
        let mut j: u64 = 0;
        while j < size
            invariant
                2 <= size <= MAX_SIZE,
                i < size,
                j <= size,
                x_offset == axis_offset(size as int, chunk_x as int),
                z_offset == axis_offset(size as int, chunk_z as int),
                x_offset + (size - 1) <= u64::MAX,
                z_offset + (size - 1) <= u64::MAX,
                points@.len() == i * size + j,
                forall|k: int|
                    0 <= k < points@.len() ==> points@[k] == point_at(
                        size as int,
                        chunk_x as int,
                        chunk_z as int,
                        k,
                    ),
            decreases size - j,
        {
            proof {
                lemma_fundamental_div_mod_converse(i * size + j, size as int, i as int, j as int);
            }
            points.push(GridPoint { local_i: i, local_j: j, world_i: x_offset + i, world_j: z_offset + j });
            j = j + 1;
        }
        assert(i * size + size == (i + 1) * size) by (nonlinear_arith);
        i = i + 1;
    }
    assert(points@ =~= grid_points(size as int, chunk_x as int, chunk_z as int));
    points
}

/// Places `6 * cell .. 6 * cell + 6` of the triangle list belong to `cell`,
/// which is cell `(i, j)` of the grid.
proof fn lemma_cell_places(size: int, i: int, j: int, corner: int)
    requires
        size >= 2,
        0 <= i,
        0 <= j < size - 1,
        0 <= corner < 6,
    ensures
        index_at(size, 6 * (i * (size - 1) + j) + corner) == cell_corner(size, i, j, corner),
{
    let cell = i * (size - 1) + j;
    lemma_fundamental_div_mod_converse(6 * cell + corner, 6, cell, corner);
    lemma_fundamental_div_mod_converse(cell, size - 1, i, j);
}

/// Every corner of a cell is a vertex of the grid.
proof fn lemma_corner_in_grid(size: int, i: int, j: int, corner: int)
    requires
        size >= 2,
        0 <= i < size - 1,
        0 <= j < size - 1,
        0 <= corner < 6,
    ensures
        0 <= cell_corner(size, i, j, corner) < vertex_count(size),
{
    assert(0 <= i * size && i * size + size <= (size - 1) * size && (size - 1) * size + size
        == size * size) by (nonlinear_arith)
        requires
            size >= 2,
            0 <= i < size - 1,
    ;
}

/// Triangle list of a chunk with edge `size`.
fn build_indices(size: u64) -> (indices: Vec<u32>)
    requires
        2 <= size <= MAX_SIZE,
    ensures
        indices@ == grid_indices(size as int),
{
    let cells: u64 = size - 1;
    let mut indices: Vec<u32> = Vec::new();
    let mut i: u64 = 0;
    while i < cells
        invariant
            2 <= size <= MAX_SIZE,
            cells == size - 1,
            i <= cells,
            indices@.len() == 6 * (i * cells),
            forall|p: int| 0 <= p < indices@.len() ==> indices@[p] == index_at(size as int, p) as u32,
        decreases cells - i,
    {
        let mut j: u64 = 0;
        while j < cells
            invariant
                2 <= size <= MAX_SIZE,
                cells == size - 1,
                i < cells,
                j <= cells,
                indices@.len() == 6 * (i * cells + j),
                forall|p: int|
                    0 <= p < indices@.len() ==> indices@[p] == index_at(size as int, p) as u32,
            decreases cells - j,
        {
            proof {
                lemma_vertex_count_bound(size as int);
                lemma_corner_in_grid(size as int, i as int, j as int, 0);
                lemma_corner_in_grid(size as int, i as int, j as int, 4);
                lemma_cell_places(size as int, i as int, j as int, 0);
                lemma_cell_places(size as int, i as int, j as int, 1);
                lemma_cell_places(size as int, i as int, j as int, 2);
                lemma_cell_places(size as int, i as int, j as int, 3);
                lemma_cell_places(size as int, i as int, j as int, 4);
                lemma_cell_places(size as int, i as int, j as int, 5);
            }
            let top_left: u64 = i * size + j;
            let top_right: u64 = top_left + 1;
            let bottom_left: u64 = top_left + size;
            let bottom_right: u64 = bottom_left + 1;

            indices.push(top_left as u32);
            indices.push(top_right as u32);
            indices.push(bottom_left as u32);

            indices.push(top_right as u32);
            indices.push(bottom_right as u32);
            indices.push(bottom_left as u32);
            j = j + 1;
        }
        assert(i * cells + cells == (i + 1) * cells) by (nonlinear_arith);
        i = i + 1;
    }
    assert(indices@ =~= grid_indices(size as int));
    indices
}

/// Lays out chunk `(x, z)` of a world whose chunks have `size` vertices along
/// each edge.
///
/// Fails with `InvalidArgument` exactly when `size < 2`, and otherwise with
/// `NumericOverflow` exactly when the vertex count would leave `u32` or a
/// sampling coordinate would lie beyond `MAX_COORDINATE`. On success the grid holds the
/// `size * size` vertices row-major, each with the world point it samples,
/// and the `6 * (size - 1)^2` entries of the triangle list. `seed` is carried
/// along for whoever samples the heights.
pub fn load_chunk(size: u64, x: u64, z: u64, seed: u32) -> (r: Result<ChunkGrid, ChunkError>)
    ensures
        match r {
            Ok(grid) => layout_error(size as int, x as int, z as int) is None && grid.is_layout_of(
                size,
                x,
                z,
                seed,
            ),
            Err(e) => layout_error(size as int, x as int, z as int) == Some(e),
        },
        r is Ok ==> r.unwrap().points@.len() == vertex_count(size as int),
        r is Ok ==> r.unwrap().indices@.len() == index_count(size as int),
{
    if size < 2 {
        return Err(ChunkError::InvalidArgument);
    }
    proof {
        lemma_vertex_count_bound(size as int);
    }
    if size > MAX_SIZE {
        return Err(ChunkError::NumericOverflow);
    }
    let x_offset: u64 = match bounded_axis_offset(size, x) {
        Some(offset) => offset,
        None => {
            return Err(ChunkError::NumericOverflow);
        },
    };
    let z_offset: u64 = match bounded_axis_offset(size, z) {
        Some(offset) => offset,
        None => {
            return Err(ChunkError::NumericOverflow);
        },
    };
    let points = build_points(size, x, z, x_offset, z_offset);
    let indices = build_indices(size);
    proof {
        assert(vertex_count(size as int) >= 0 && index_count(size as int) >= 0) by (nonlinear_arith)
            requires
                size >= 2,
        ;
    }
    Ok(ChunkGrid { size, chunk_x: x, chunk_z: z, seed, points, indices })
}

/// A vertex of the last row of a chunk samples the same world point as the
/// vertex beside it in the first row of the next chunk along x, so the two
/// chunks meet without a seam whatever height function is sampled.
pub proof fn lemma_seam_along_x(left: ChunkGrid, right: ChunkGrid, size: u64, x: u64, z: u64, j: u64)
    requires
        layout_error(size as int, x as int, z as int) is None,
        layout_error(size as int, x + 1, z as int) is None,
        left.points@ == grid_points(size as int, x as int, z as int),
        right.points@ == grid_points(size as int, x + 1, z as int),
        j < size,
    ensures
        0 <= (size - 1) * size + j < left.points@.len(),
        0 <= j < right.points@.len(),
        left.points@[(size - 1) * size + j].local_i == size - 1,
        left.points@[(size - 1) * size + j].local_j == j,
        right.points@[j as int].local_i == 0,
        right.points@[j as int].local_j == j,
        left.points@[(size - 1) * size + j].world_i == right.points@[j as int].world_i,
        left.points@[(size - 1) * size + j].world_j == right.points@[j as int].world_j,
{
    let s = size as int;
    lemma_fundamental_div_mod_converse((s - 1) * s + j, s, s - 1, j as int);
    lemma_fundamental_div_mod_converse(j as int, s, 0, j as int);
    assert((s - 1) * s + s == s * s && (s - 1) * s >= 0) by (nonlinear_arith)
        requires
            s >= 2,
    ;
    assert(x * (s - 1) + (s - 1) == (x + 1) * (s - 1)) by (nonlinear_arith);
}

/// The same along z: the last vertex of each row of a chunk samples the
/// world point of the first vertex of that row in the next chunk along z.
pub proof fn lemma_seam_along_z(near: ChunkGrid, far: ChunkGrid, size: u64, x: u64, z: u64, i: u64)
    requires
        layout_error(size as int, x as int, z as int) is None,
        layout_error(size as int, x as int, z + 1) is None,
        near.points@ == grid_points(size as int, x as int, z as int),
        far.points@ == grid_points(size as int, x as int, z + 1),
        i < size,
    ensures
        0 <= i * size + (size - 1) < near.points@.len(),
        0 <= i * size < far.points@.len(),
        near.points@[i * size + (size - 1)].local_i == i,
        near.points@[i * size + (size - 1)].local_j == size - 1,
        far.points@[i * size].local_i == i,
        far.points@[i * size].local_j == 0,
        near.points@[i * size + (size - 1)].world_i == far.points@[i * size].world_i,
        near.points@[i * size + (size - 1)].world_j == far.points@[i * size].world_j,
{
    let s = size as int;
    lemma_fundamental_div_mod_converse(i * s + (s - 1), s, i as int, s - 1);
    lemma_fundamental_div_mod_converse(i * s, s, i as int, 0);
    assert(0 <= i * s && i * s + s <= s * s) by (nonlinear_arith)
        requires
            s >= 2,
            0 <= i < s,
    ;
    assert(z * (s - 1) + (s - 1) == (z + 1) * (s - 1)) by (nonlinear_arith);
}

/// Every entry of the triangle list is the number of a vertex of the grid,
/// so none is cut short when stored in 32 bits.
pub proof fn lemma_index_in_grid(size: int, p: int)
    requires
        2 <= size <= MAX_SIZE,
        0 <= p < index_count(size),
    ensures
        0 <= index_at(size, p) < vertex_count(size),
        vertex_count(size) <= u32::MAX,
        grid_indices(size)[p] == index_at(size, p),
{
    let cell = p / 6;
    let i = cell / (size - 1);
    let j = cell % (size - 1);
    lemma_fundamental_div_mod(p, 6);
    lemma_fundamental_div_mod(cell, size - 1);
    assert(0 <= i < size - 1) by (nonlinear_arith)
        requires
            cell == (size - 1) * i + j,
            0 <= j < size - 1,
            0 <= cell < (size - 1) * (size - 1),
    ;
    lemma_corner_in_grid(size, i, j, p % 6);
    lemma_vertex_count_bound(size);
}

/// Both triangles of every cell are wound the same way round, and each
/// covers half a cell.
pub proof fn lemma_winding_is_uniform(size: int, i: int, j: int)
    requires
        size >= 2,
        0 <= i < size - 1,
        0 <= j < size - 1,
    ensures
        doubled_area(
            size,
            cell_corner(size, i, j, 0),
            cell_corner(size, i, j, 1),
            cell_corner(size, i, j, 2),
        ) == -1,
        doubled_area(
            size,
            cell_corner(size, i, j, 3),
            cell_corner(size, i, j, 4),
            cell_corner(size, i, j, 5),
        ) == -1,
{
    let top_left = i * size + j;
    assert((i + 1) * size == i * size + size) by (nonlinear_arith);
    lemma_fundamental_div_mod_converse(top_left, size, i, j);
    lemma_fundamental_div_mod_converse(top_left + 1, size, i, j + 1);
    lemma_fundamental_div_mod_converse(top_left + size, size, i + 1, j);
    lemma_fundamental_div_mod_converse(top_left + size + 1, size, i + 1, j + 1);
    assert((i - i) * (j - j) - ((j + 1) - j) * ((i + 1) - i) == -1);
    assert(((i + 1) - i) * (j - (j + 1)) - ((j + 1) - (j + 1)) * ((i + 1) - i) == -1);
}

} // verus!
