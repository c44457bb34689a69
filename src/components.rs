//! Per-entity data.
use vstd::prelude::*;

verus! {

/// Sub-units in one world unit.
pub const UNIT: i64 = 1_000_000_000;

/// Entity position in world coordinates, in sub-units.
#[derive(Clone, Copy, Debug, PartialEq, Eq, Structural)]
pub struct Position {
    pub x: i64,
    pub y: i64,
    pub z: i64,
}

impl Position {
    /// The origin.
    pub fn new() -> (r: Position)
        ensures
            r.x == 0 && r.y == 0 && r.z == 0,
    {
        Position { x: 0, y: 0, z: 0 }
    }

    pub fn new_xyz(x: i64, y: i64, z: i64) -> (r: Position)
        ensures
            r.x == x && r.y == y && r.z == z,
    {
        Position { x, y, z }
    }

    /// The coordinates as `[x, y, z]`.
    pub fn as_vec(&self) -> (r: Vec<i64>)
        ensures
            r@ == seq![self.x, self.y, self.z],
    {
        vec![self.x, self.y, self.z]
    }
}


/// Entity velocity in world units per second.
#[derive(Clone, Copy, Debug, PartialEq, Eq, Structural)]
pub struct Velocity {
    pub x: i64,
    pub y: i64,
    pub z: i64,
}

impl Velocity {
    /// At rest.
    pub fn new() -> (r: Velocity)
        ensures
            r.x == 0 && r.y == 0 && r.z == 0,
    {
        Velocity { x: 0, y: 0, z: 0 }
    }

    /// The components as `[x, y, z]`.
    pub fn as_vec(&self) -> (r: Vec<i64>)
        ensures
            r@ == seq![self.x, self.y, self.z],
    {
        vec![self.x, self.y, self.z]
    }
}

/// Entity extents on its tile, in sub-units.
#[derive(Clone, Copy, Debug, PartialEq, Eq, Structural)]
pub struct Size {
    pub width: i64,
    pub height: i64,
}

impl Size {
    /// Ten world units on each side.
    pub fn default() -> (r: Size)
        ensures
            r.width == 10 * UNIT && r.height == 10 * UNIT,
    {
        Size { width: 10 * UNIT, height: 10 * UNIT }
    }

    pub fn new(width: i64, height: i64) -> (r: Size)
        ensures
            r.width == width && r.height == height,
    {
        Size { width, height }
    }

    /// The extents as `[width, height]`.
    pub fn as_vec(&self) -> (r: Vec<i64>)
        ensures
            r@ == seq![self.width, self.height],
    {
        vec![self.width, self.height]
    }
}

/// Handles of the GPU objects that draw an entity.
#[derive(Clone, Copy, Debug, PartialEq, Eq, Structural)]
pub struct Drawn {
    pub program: u32,
    pub attribute_array: u32,
    pub vertex_buffer: u32,
    /// Coordinates in the vertex buffer, three per vertex.
    pub vertex_count: u32,
    pub texture_id: u32,
    pub texture_coord_buffer: u32,
}

/// Frame that follows `layer` in an animation of `count` frames: the next
/// one, or the first once the last has been shown.
pub open spec fn next_frame(layer: int, count: int) -> int {
    if layer + 1 >= count {
        0
    } else {
        layer + 1
    }
}

/// Whether `delta` more nanoseconds complete the frame that is showing.
pub open spec fn frame_completes(a: Animate, delta: u64) -> bool {
    a.time_elapsed + delta >= a.speed
}

/// The animation clock after `delta` nanoseconds: at most one frame further.
pub open spec fn animate_step(a: Animate, delta: u64) -> Animate {
    if frame_completes(a, delta) {
        Animate {
            time_elapsed: 0,
            layer: next_frame(a.layer as int, a.texture_coord_buffers.len() as int) as u32,
            ..a
        }
    } else {
        Animate { time_elapsed: (a.time_elapsed + delta) as u64, ..a }
    }
}

/// Sprite animation of an entity: one texture-coordinate buffer per frame.
#[derive(Debug)]
pub struct Animate {
    /// How long each frame shows, in nanoseconds.
    pub speed: u64,
    /// Time spent on the current frame, in nanoseconds.
    pub time_elapsed: u64,
    /// Index of the current frame.
    pub layer: u32,
    pub texture_coord_buffers: Vec<u32>,
}

impl Animate {
    /// An animation at its first frame, with `speed` nanoseconds per frame.
    pub fn new(speed: u64, texture_coord_buffers: Vec<u32>) -> (r: Animate)
        ensures
            r.speed == speed,
            r.time_elapsed == 0,
            r.layer == 0,
            r.texture_coord_buffers == texture_coord_buffers,
    {
        Animate { speed, time_elapsed: 0, layer: 0, texture_coord_buffers }
    }

    /// Adds `delta` nanoseconds to the clock. Once the frame duration is
    /// reached the clock restarts and the next frame is selected, wrapping to
    /// the first; however long `delta` is, at most one frame is passed.
    /// Returns whether the frame changed.
    pub fn advance(&mut self, delta: u64) -> (advanced: bool)
        requires
            old(self).texture_coord_buffers.len() <= u32::MAX,
        ensures
            advanced == frame_completes(*old(self), delta),
            *final(self) == animate_step(*old(self), delta),
    {
        let total = self.time_elapsed.saturating_add(delta);
        if total >= self.speed {
            self.time_elapsed = 0;
            if (self.layer as u64) + 1 >= self.texture_coord_buffers.len() as u64 {
                self.layer = 0;
            } else {
                self.layer = self.layer + 1;
            }
            true
        } else {
            self.time_elapsed = total;
            false
        }
    }
}

/// Marks an entity as steered by the keyboard.
#[derive(Clone, Copy, Debug, Default, PartialEq, Eq, Structural)]
pub struct Controlled;

} // verus!
