//! The systems that update the world once per frame, each applied to the
//! components of one entity or to the entities of one frame.
use crate::components::{animate_step, frame_completes, Animate, Drawn, Position, Size, Velocity};
use crate::resources::{elapsed_nanos, DeltaTime, InputState};
use vstd::prelude::*;

verus! {

/// A call into the graphics context.
#[derive(Clone, Copy, Debug, PartialEq, Eq, Structural)]
pub enum GlCommand {
    /// Clear the color buffer.
    Clear,
    /// Make `program` the shader program in use.
    UseProgram { program: u32 },
    BindVertexArray { vertex_array: u32 },
    BindTexture { texture: u32 },
    /// Set the `position` uniform of the program in use.
    SetPosition { position: Position },
    /// Set the `size` uniform of the program in use.
    SetSize { size: Size },
    /// Draw triangles from the first `count` vertices of the bound vertex
    /// array.
    DrawTriangles { count: u32 },
    /// Point the texture-coordinate attribute of `vertex_array` (index 1,
    /// two components per vertex) at `buffer`.
    AttachTextureCoordinates { buffer: u32, vertex_array: u32 },
}

/// The calls that draw one entity.
pub open spec fn draw_commands(drawn: Drawn, position: Position, size: Size) -> Seq<GlCommand> {
    seq![
        GlCommand::UseProgram { program: drawn.program },
        GlCommand::BindVertexArray { vertex_array: drawn.attribute_array },
        GlCommand::BindTexture { texture: drawn.texture_id },
        GlCommand::SetPosition { position },
        GlCommand::SetSize { size },
        GlCommand::DrawTriangles { count: drawn.vertex_count / 3 },
    ]
}

/// The calls that draw `entities`, one after the other, in order.
pub open spec fn entities_commands(entities: Seq<(Drawn, Position, Size)>) -> Seq<GlCommand>
    decreases entities.len(),
{
    if entities.len() == 0 {
        seq![]
    } else {
        let e = entities.last();
        entities_commands(entities.drop_last()) + draw_commands(e.0, e.1, e.2)
    }
}

/// Draws the entities that have a mesh, a position and a size.
pub struct DrawSystem;

impl DrawSystem {
    /// The calls of one frame: clear the color buffer, then draw each entity.
    pub fn run(&self, entities: &Vec<(Drawn, Position, Size)>) -> (r: Vec<GlCommand>)
        ensures
            r@ == seq![GlCommand::Clear] + entities_commands(entities@),
    {
        let mut r: Vec<GlCommand> = Vec::new();
        r.push(GlCommand::Clear);
        let mut i: usize = 0;
        while i < entities.len()
            invariant
                i <= entities.len(),
                r@ == seq![GlCommand::Clear] + entities_commands(entities@.take(i as int)),
            decreases entities.len() - i,
        {
            let (drawn, position, size) = entities[i];
            r.push(GlCommand::UseProgram { program: drawn.program });
            r.push(GlCommand::BindVertexArray { vertex_array: drawn.attribute_array });
            r.push(GlCommand::BindTexture { texture: drawn.texture_id });
            r.push(GlCommand::SetPosition { position });
            r.push(GlCommand::SetSize { size });
            r.push(GlCommand::DrawTriangles { count: drawn.vertex_count / 3 });
            proof {
                assert(entities@.take(i + 1).drop_last() =~= entities@.take(i as int));
                assert(r@ =~= seq![GlCommand::Clear] + entities_commands(entities@.take(i + 1)));
            }
            i = i + 1;
        }
        proof {
            assert(entities@.take(i as int) =~= entities@);
        }
        r
    }
}

/// Advances the animation clock of each animated entity.
pub struct AnimateSystem;

impl AnimateSystem {
    /// Adds the time step to the clock of one entity. When its frame ends,
    /// the next frame's texture coordinates are attached to the entity's
    /// vertex array; the returned call does that.
    pub fn run(&self, animate: &mut Animate, drawn: &Drawn, delta_time: &DeltaTime) -> (r: Option<
        GlCommand,
    >)
        requires
            0 < old(animate).texture_coord_buffers.len() <= u32::MAX,
        ensures
            *final(animate) == animate_step(*old(animate), delta_time.delta),
            r == if frame_completes(*old(animate), delta_time.delta) {
                Some(
                    GlCommand::AttachTextureCoordinates {
                        buffer: final(animate).texture_coord_buffers@[final(animate).layer as int],
                        vertex_array: drawn.attribute_array,
                    },
                )
            } else {
                None
            },
    {
        if animate.advance(delta_time.delta) {
            let buffer = animate.texture_coord_buffers[animate.layer as usize];
            Some(GlCommand::AttachTextureCoordinates { buffer, vertex_array: drawn.attribute_array })
        } else {
            None
        }
    }
}

/// Computes the time step.
pub struct TimeSystem;

impl TimeSystem {
    /// Reads the clock: the step becomes the time since the last reading.
    pub fn run(&self, delta_time: &mut DeltaTime)
        ensures
            final(delta_time).delta == elapsed_nanos(old(delta_time).last, final(delta_time).last),
    {
        delta_time.update();
    }
}

/// Velocity along one axis from the two keys that steer it.
pub open spec fn axis(positive: bool, negative: bool) -> int {
    (if positive {
        1int
    } else {
        0int
    }) + (if negative {
        -1int
    } else {
        0int
    })
}

/// Steers the entities marked `Controlled` from the keyboard.
pub struct ControlSystem;

impl ControlSystem {
    /// Sets the velocity of one controlled entity: right and up count one
    /// unit per second, left and down minus one; opposite keys cancel. The
    /// z component is kept.
    pub fn run(&self, velocity: &mut Velocity, input_state: &InputState)
        ensures
            final(velocity).x == axis(input_state.right, input_state.left),
            final(velocity).y == axis(input_state.up, input_state.down),
            final(velocity).z == old(velocity).z,
    {
        let up: i64 = if input_state.up {
            1
        } else {
            0
        };
        let down: i64 = if input_state.down {
            -1
        } else {
            0
        };
        let right: i64 = if input_state.right {
            1
        } else {
            0
        };
        let left: i64 = if input_state.left {
            -1
        } else {
            0
        };
        velocity.x = right + left;
        velocity.y = up + down;
    }
}

/// One coordinate moved for `delta` nanoseconds at `speed` units per second,
/// in sub-units.
pub open spec fn moved(coordinate: i64, speed: i64, delta: u64) -> int {
    coordinate + speed * delta
}

pub open spec fn fits_i64(n: int) -> bool {
    i64::MIN <= n <= i64::MAX
}

/// Whether each coordinate of the moved position can be represented.
pub open spec fn step_fits(p: Position, v: Velocity, delta: u64) -> bool {
    &&& fits_i64(moved(p.x, v.x, delta))
    &&& fits_i64(moved(p.y, v.y, delta))
    &&& fits_i64(moved(p.z, v.z, delta))
}

/// The position reached from `p` at velocity `v` after `delta` nanoseconds.
pub open spec fn integrated(p: Position, v: Velocity, delta: u64) -> Position {
    Position {
        x: moved(p.x, v.x, delta) as i64,
        y: moved(p.y, v.y, delta) as i64,
        z: moved(p.z, v.z, delta) as i64,
    }
}

/// `coordinate + speed * delta`, or `None` where that leaves `i64`.
fn moved_coordinate(coordinate: i64, speed: i64, delta: u64) -> (r: Option<i64>)
    ensures
        r == if fits_i64(moved(coordinate, speed, delta)) {
            Some(moved(coordinate, speed, delta) as i64)
        } else {
            None
        },
{
    let s = speed as i128;
    let d = delta as i128;
    proof {
        assert(-0x8000_0000_0000_0000 * 0xffff_ffff_ffff_ffffint <= s * d <= 0x7fff_ffff_ffff_ffff
            * 0xffff_ffff_ffff_ffffint) by (nonlinear_arith)
            requires
                -0x8000_0000_0000_0000 <= s <= 0x7fff_ffff_ffff_ffff,
                0 <= d <= 0xffff_ffff_ffff_ffff,
        ;
    }
    let n = coordinate as i128 + s * d;
    if n < i64::MIN as i128 || n > i64::MAX as i128 {
        None
    } else {
        Some(n as i64)
    }
}

/// Moves each entity that has a position and a velocity.
pub struct PhysicsSystem;

impl PhysicsSystem {
    /// Moves one entity by its velocity times the time step, taken in
    /// seconds. A position that would leave the range of `i64` stays where
    /// it is, and the result says whether the entity moved.
    pub fn run(&self, position: &mut Position, velocity: &Velocity, delta_time: &DeltaTime) -> (r:
        bool)
        ensures
            r == step_fits(*old(position), *velocity, delta_time.delta),
            *final(position) == if r {
                integrated(*old(position), *velocity, delta_time.delta)
            } else {
                *old(position)
            },
    {
        let delta = delta_time.delta;
        let x = moved_coordinate(position.x, velocity.x, delta);
        let y = moved_coordinate(position.y, velocity.y, delta);
        let z = moved_coordinate(position.z, velocity.z, delta);
        match (x, y, z) {
            (Some(x), Some(y), Some(z)) => {
                position.x = x;
                position.y = y;
                position.z = z;
                true
            },
            _ => false,
        }
    }
}

} // verus!
