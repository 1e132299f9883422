//! Positions, chunks and level of detail.

use vstd::prelude::*;

verus! {

/// Voxels along one side of a chunk.
pub const CHUNK_SIZE: i32 = 32;

/// An integer position: of a voxel in the world, or of a chunk among chunks.
#[derive(Debug, Clone, Copy, PartialEq, Eq, Hash, Structural)]
pub struct Coordinate {
    pub x: i32,
    pub y: i32,
    pub z: i32,
}

/// The chunk that holds `v` along one axis: `v / CHUNK_SIZE`, rounded down.
pub open spec fn chunk_index(v: int) -> int {
    v / (CHUNK_SIZE as int)
}

/// The square of the straight-line distance between two positions.
pub open spec fn distance_squared(a: Coordinate, b: Coordinate) -> int {
    (a.x - b.x) * (a.x - b.x) + (a.y - b.y) * (a.y - b.y) + (a.z - b.z) * (a.z - b.z)
}

/// The stride at a whole distance, in chunks: it doubles at 16, 24, 32, 40
/// and 48.
pub open spec fn stride_at(distance: int) -> u8 {
    if distance < 16 {
        1
    } else if distance < 24 {
        2
    } else if distance < 32 {
        4
    } else if distance < 40 {
        8
    } else if distance < 48 {
        16
    } else {
        32
    }
}

/// The stride at a distance given by its square, so that distances that are
/// no whole number have one too: the breakpoints are those of `stride_at`,
/// squared.
pub open spec fn stride_for(distance_squared: int) -> u8 {
    if distance_squared < 16 * 16 {
        1
    } else if distance_squared < 24 * 24 {
        2
    } else if distance_squared < 32 * 32 {
        4
    } else if distance_squared < 40 * 40 {
        8
    } else if distance_squared < 48 * 48 {
        16
    } else {
        32
    }
}

/// The chunk whose voxels include `position`.
pub open spec fn chunk_holding(position: Coordinate) -> Coordinate {
    Coordinate {
        x: chunk_index(position.x as int) as i32,
        y: chunk_index(position.y as int) as i32,
        z: chunk_index(position.z as int) as i32,
    }
}

/// Voxels sampled along one side of a chunk at a stride; a stride of zero
/// counts as one.
pub open spec fn resolution_of(stride: u8) -> int {
    if stride == 0 {
        CHUNK_SIZE as int
    } else {
        CHUNK_SIZE as int / stride as int
    }
}

fn chunk_index_of(v: i32) -> (index: i32)
    ensures
        index == chunk_index(v as int),
{
    let shifted: i64 = v as i64 + 0x8000_0000;
    (shifted / (CHUNK_SIZE as i64) - 0x400_0000) as i32
}

fn squared_gap(a: i32, b: i32) -> (sq: u128)
    ensures
        sq == (a - b) * (a - b),
        sq <= 0x1_0000_0000_0000_0000,
{
    let gap: i128 = a as i128 - b as i128;
    assert(0 <= gap * gap <= 0x1_0000_0000_0000_0000) by (nonlinear_arith)
        requires
            -0x1_0000_0000 <= gap <= 0x1_0000_0000,
    ;
    (gap * gap) as u128
}

impl Coordinate {
    pub fn new(x: i32, y: i32, z: i32) -> (position: Coordinate)
        ensures
            position == (Coordinate { x, y, z }),
    {
        Coordinate { x, y, z }
    }

    /// The chunk whose voxels include this position.
    pub fn chunk(&self) -> (chunk: Coordinate)
        ensures
            chunk == chunk_holding(*self),
    {
        Coordinate {
            x: chunk_index_of(self.x),
            y: chunk_index_of(self.y),
            z: chunk_index_of(self.z),
        }
    }
}

/// The stride for a chunk at the given squared distance from the camera's
/// chunk.
pub fn stride_for_distance(distance_squared: u128) -> (stride: u8)
    ensures
        stride == stride_for(distance_squared as int),
{
    if distance_squared < 256 {
        1
    } else if distance_squared < 576 {
        2
    } else if distance_squared < 1024 {
        4
    } else if distance_squared < 1600 {
        8
    } else if distance_squared < 2304 {
        16
    } else {
        32
    }
}

/// The level of detail of a chunk: the stride for its distance from the chunk
/// that holds the camera. `camera` is the voxel the camera is in.
pub fn lod_for(chunk: Coordinate, camera: Coordinate) -> (stride: u8)
    ensures
        stride == stride_for(distance_squared(chunk, chunk_holding(camera))),
{
    let center = camera.chunk();
    let sum: u128 = squared_gap(chunk.x, center.x) + squared_gap(chunk.y, center.y) + squared_gap(
        chunk.z,
        center.z,
    );
    stride_for_distance(sum)
}

/// Voxels sampled along one side of a chunk at a stride; a stride of zero
/// counts as one.
pub fn chunk_resolution(stride: u8) -> (side: u32)
    ensures
        side == resolution_of(stride),
{
    let step: u32 = if stride == 0 {
        1
    } else {
        stride as u32
    };
    32 / step
}

/// Detail does not grow with distance: a chunk that is no nearer than
/// another has a stride that is no smaller.
pub proof fn lemma_stride_monotonic(near: int, far: int)
    requires
        near <= far,
    ensures
        stride_for(near) <= stride_for(far),
        stride_at(near) <= stride_at(far),
{
}

/// At a whole distance the stride read from the square is the stride read
/// from the distance, so `stride_for` has its breakpoints at 16, 24, 32, 40
/// and 48.
pub proof fn lemma_stride_breakpoints(distance: int)
    requires
        distance >= 0,
    ensures
        stride_for(distance * distance) == stride_at(distance),
{
    assert(distance < 16 <==> distance * distance < 16 * 16) by (nonlinear_arith)
        requires
            distance >= 0,
    ;
    assert(distance < 24 <==> distance * distance < 24 * 24) by (nonlinear_arith)
        requires
            distance >= 0,
    ;
    assert(distance < 32 <==> distance * distance < 32 * 32) by (nonlinear_arith)
        requires
            distance >= 0,
    ;
    assert(distance < 40 <==> distance * distance < 40 * 40) by (nonlinear_arith)
        requires
            distance >= 0,
    ;
    assert(distance < 48 <==> distance * distance < 48 * 48) by (nonlinear_arith)
        requires
            distance >= 0,
    ;
}

/// Every stride is one of the six levels.
pub proof fn lemma_stride_levels(distance_squared: int)
    ensures
        ({
            let s = stride_for(distance_squared);
            s == 1 || s == 2 || s == 4 || s == 8 || s == 16 || s == 32
        }),
{
}

} // verus!
