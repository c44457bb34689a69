use rouge::components::{Animate, Drawn, Position, Size, Velocity, UNIT};
use rouge::resources::{DeltaTime, InputState};
use rouge::systems::{
    AnimateSystem, ControlSystem, DrawSystem, GlCommand, PhysicsSystem, TimeSystem,
};

fn delta_time(delta: u64) -> DeltaTime {
    let mut dt = DeltaTime::default();
    dt.delta = delta;
    dt
}

fn drawn() -> Drawn {
    Drawn {
        program: 1,
        attribute_array: 7,
        vertex_buffer: 2,
        vertex_count: 18,
        texture_id: 3,
        texture_coord_buffer: 4,
    }
}

#[test]
fn control_up_down_right() {
    let mut velocity = Velocity { x: 0, y: 0, z: 5 };
    let input = InputState { up: true, down: true, left: false, right: true, action: false };
    ControlSystem.run(&mut velocity, &input);
    assert_eq!(velocity, Velocity { x: 1, y: 0, z: 5 });
}

#[test]
fn control_opposite_keys_cancel() {
    let mut velocity = Velocity { x: 3, y: 3, z: -2 };
    let input = InputState { up: true, down: true, left: true, right: true, action: true };
    ControlSystem.run(&mut velocity, &input);
    assert_eq!(velocity, Velocity { x: 0, y: 0, z: -2 });
}

#[test]
fn control_single_keys() {
    let mut velocity = Velocity::new();
    let input = InputState { up: false, down: true, left: true, right: false, action: false };
    ControlSystem.run(&mut velocity, &input);
    assert_eq!(velocity, Velocity { x: -1, y: -1, z: 0 });
    ControlSystem.run(&mut velocity, &InputState::new());
    assert_eq!(velocity, Velocity { x: 0, y: 0, z: 0 });
}

#[test]
fn physics_half_second() {
    let mut position = Position::new();
    let velocity = Velocity { x: 1, y: 0, z: 0 };
    let dt = delta_time(500_000_000);
    assert!(PhysicsSystem.run(&mut position, &velocity, &dt));
    assert_eq!(position, Position::new_xyz(UNIT / 2, 0, 0));
}

#[test]
fn physics_entities_move_independently() {
    let dt = delta_time(250_000_000);
    let mut a = Position::new_xyz(10, -20, 30);
    let mut b = Position::new_xyz(UNIT, UNIT, 0);
    let va = Velocity { x: -1, y: 1, z: 0 };
    let vb = Velocity { x: 2, y: 0, z: -3 };
    assert!(PhysicsSystem.run(&mut a, &va, &dt));
    assert!(PhysicsSystem.run(&mut b, &vb, &dt));
    assert_eq!(a, Position::new_xyz(10 - 250_000_000, -20 + 250_000_000, 30));
    assert_eq!(b, Position::new_xyz(UNIT + 500_000_000, UNIT, -750_000_000));
}

#[test]
fn physics_out_of_range_stays() {
    let dt = delta_time(10);
    let mut position = Position::new_xyz(i64::MAX - 5, 0, 0);
    let velocity = Velocity { x: 1, y: 0, z: 0 };
    assert!(!PhysicsSystem.run(&mut position, &velocity, &dt));
    assert_eq!(position, Position::new_xyz(i64::MAX - 5, 0, 0));
}

#[test]
fn physics_zero_step_keeps_position() {
    let dt = delta_time(0);
    let mut position = Position::new_xyz(4, 5, 6);
    let velocity = Velocity { x: i64::MAX, y: i64::MIN, z: 1 };
    assert!(PhysicsSystem.run(&mut position, &velocity, &dt));
    assert_eq!(position, Position::new_xyz(4, 5, 6));
}

#[test]
fn animate_frame_completes() {
    let mut animate = Animate::new(200_000_000, vec![11, 12, 13, 14]);
    animate.time_elapsed = 190_000_000;
    animate.layer = 2;
    let dt = delta_time(20_000_000);
    let r = AnimateSystem.run(&mut animate, &drawn(), &dt);
    assert_eq!(animate.time_elapsed, 0);
    assert_eq!(animate.layer, 3);
    assert_eq!(r, Some(GlCommand::AttachTextureCoordinates { buffer: 14, vertex_array: 7 }));
}

#[test]
fn animate_wraps_to_first_frame() {
    let mut animate = Animate::new(200_000_000, vec![11, 12, 13, 14]);
    animate.layer = 3;
    let dt = delta_time(200_000_000);
    let r = AnimateSystem.run(&mut animate, &drawn(), &dt);
    assert_eq!(animate.layer, 0);
    assert_eq!(r, Some(GlCommand::AttachTextureCoordinates { buffer: 11, vertex_array: 7 }));
}

#[test]
fn animate_long_step_passes_one_frame() {
    let mut animate = Animate::new(200_000_000, vec![11, 12, 13, 14]);
    animate.time_elapsed = 5;
    let dt = delta_time(u64::MAX);
    let r = AnimateSystem.run(&mut animate, &drawn(), &dt);
    assert_eq!(animate.layer, 1);
    assert_eq!(animate.time_elapsed, 0);
    assert_eq!(r, Some(GlCommand::AttachTextureCoordinates { buffer: 12, vertex_array: 7 }));
}

#[test]
fn animate_accumulates_below_frame_duration() {
    let mut animate = Animate::new(200_000_000, vec![11, 12]);
    let dt = delta_time(150_000_000);
    assert_eq!(AnimateSystem.run(&mut animate, &drawn(), &dt), None);
    assert_eq!(animate.time_elapsed, 150_000_000);
    assert_eq!(animate.layer, 0);
    assert!(AnimateSystem.run(&mut animate, &drawn(), &dt).is_some());
    assert_eq!(animate.time_elapsed, 0);
    assert_eq!(animate.layer, 1);
}

#[test]
fn animate_single_frame_stays() {
    let mut animate = Animate::new(1, vec![9]);
    assert!(animate.advance(1));
    assert_eq!(animate.layer, 0);
    assert_eq!(animate.speed, 1);
}

#[test]
fn delta_time_advance() {
    let mut dt = DeltaTime::default();
    assert_eq!(dt.last, 0);
    assert_eq!(dt.delta, 0);
    dt.advance(100);
    assert_eq!((dt.last, dt.delta), (100, 100));
    dt.advance(250);
    assert_eq!((dt.last, dt.delta), (250, 150));
    dt.advance(250);
    assert_eq!((dt.last, dt.delta), (250, 0));
    dt.advance(40);
    assert_eq!((dt.last, dt.delta), (40, 0));
}

#[test]
fn time_system_reads_clock() {
    let mut dt = DeltaTime::default();
    TimeSystem.run(&mut dt);
    let first = dt.last;
    assert_eq!(dt.delta, first);
    let mut previous = first;
    loop {
        TimeSystem.run(&mut dt);
        assert!(dt.last >= previous);
        assert_eq!(dt.delta, dt.last - previous);
        if dt.last > first {
            break;
        }
        previous = dt.last;
    }
    assert!(dt.delta > 0);
}

#[test]
fn draw_no_entities_clears() {
    assert_eq!(DrawSystem.run(&Vec::new()), vec![GlCommand::Clear]);
}

#[test]
fn draw_entities_in_order() {
    let first = (drawn(), Position::new_xyz(1, 2, 3), Size::new(4, 5));
    let mut other = drawn();
    other.program = 20;
    other.attribute_array = 21;
    other.texture_id = 22;
    other.vertex_count = 7;
    let second = (other, Position::new(), Size::default());
    let commands = DrawSystem.run(&vec![first, second]);
    assert_eq!(
        commands,
        vec![
            GlCommand::Clear,
            GlCommand::UseProgram { program: 1 },
            GlCommand::BindVertexArray { vertex_array: 7 },
            GlCommand::BindTexture { texture: 3 },
            GlCommand::SetPosition { position: Position::new_xyz(1, 2, 3) },
            GlCommand::SetSize { size: Size::new(4, 5) },
            GlCommand::DrawTriangles { count: 6 },
            GlCommand::UseProgram { program: 20 },
            GlCommand::BindVertexArray { vertex_array: 21 },
            GlCommand::BindTexture { texture: 22 },
            GlCommand::SetPosition { position: Position::new() },
            GlCommand::SetSize { size: Size::new(10 * UNIT, 10 * UNIT) },
            GlCommand::DrawTriangles { count: 2 },
        ]
    );
}

#[test]
fn component_constructors() {
    assert_eq!(Position::new().as_vec(), vec![0, 0, 0]);
    assert_eq!(Position::new_xyz(1, -2, 3).as_vec(), vec![1, -2, 3]);
    assert_eq!(Velocity { x: 4, y: 5, z: -6 }.as_vec(), vec![4, 5, -6]);
    assert_eq!(Size::default().as_vec(), vec![10_000_000_000, 10_000_000_000]);
    assert_eq!(Size::new(7, 8).as_vec(), vec![7, 8]);
    let input = InputState::new();
    assert!(!input.up && !input.down && !input.left && !input.right && !input.action);
    let animate = Animate::new(5, vec![1, 2]);
    assert_eq!((animate.speed, animate.time_elapsed, animate.layer), (5, 0, 0));
    assert_eq!(animate.texture_coord_buffers, vec![1, 2]);
}
