//! Properties that hold of the systems on every input.
use crate::components::{animate_step, frame_completes, Animate, Position, Velocity};
use crate::resources::{elapsed_nanos, InputState};
use crate::systems::{axis, integrated, step_fits};
use vstd::prelude::*;

verus! {

/// Holding both keys of an axis leaves the velocity along that axis at zero.
pub proof fn lemma_opposite_keys_cancel(input_state: InputState)
    ensures
        input_state.up && input_state.down ==> axis(input_state.up, input_state.down) == 0,
        input_state.right && input_state.left ==> axis(input_state.right, input_state.left) == 0,
{
}

/// One physics pass moves a position by exactly its velocity times the time
/// step, and depends on nothing but that entity's position and velocity.
/// It holds wherever the moved position can be represented.
pub proof fn lemma_physics_step(p: Position, v: Velocity, delta: u64)
    requires
        step_fits(p, v, delta),
    ensures
        integrated(p, v, delta).x == p.x + v.x * delta,
        integrated(p, v, delta).y == p.y + v.y * delta,
        integrated(p, v, delta).z == p.z + v.z * delta,
{
}

/// However large the time step, an animation moves on by at most one frame,
/// and the frame index wraps around modulo the number of frames.
pub proof fn lemma_single_frame_step(a: Animate, delta: u64)
    requires
        a.layer < a.texture_coord_buffers.len() <= u32::MAX,
    ensures
        frame_completes(a, delta) ==> animate_step(a, delta).layer == (a.layer + 1) % (
        a.texture_coord_buffers.len() as int),
        !frame_completes(a, delta) ==> animate_step(a, delta).layer == a.layer,
        animate_step(a, delta).texture_coord_buffers == a.texture_coord_buffers,
{
    let n = a.texture_coord_buffers.len() as int;
    if a.layer + 1 >= n {
        assert((a.layer + 1) % n == 0) by {
            vstd::arithmetic::div_mod::lemma_mod_self_0(n);
        }
    } else {
        assert((a.layer + 1) % n == a.layer + 1) by {
            vstd::arithmetic::div_mod::lemma_small_mod((a.layer + 1) as nat, n as nat);
        }
    }
}

/// The time step is never negative, and a clock reading later than the last
/// one becomes the new last reading, so the last reading strictly increases
/// whenever the clock has moved on since the previous update.
pub proof fn lemma_time_step(last: u64, now: u64)
    requires
        now > last,
    ensures
        elapsed_nanos(last, now) >= 0,
        last + elapsed_nanos(last, now) == now,
        now > last,
{
}

} // verus!
