use tile_rpg::components::{
    commanded_velocity, moved_position, Direction, MovementCommand, Position, Renderable, Velocity,
    PLAYER_MOVEMENT_SPEED,
};
use tile_rpg::systems::{next_tick_fits, step_fits, Dispatcher, Keyboard, Physics, StorageKind, SystemAccess};
use tile_rpg::world::{Entity, EntityBuilder, World};

fn player(keyboard: bool) -> EntityBuilder {
    EntityBuilder {
        position: Some(Position::new(450, 350)),
        velocity: Some(Velocity { speed: 0, dir: Direction::Right }),
        renderable: Some(Renderable {
            texture_name: "sprites/player_sprite.png".to_string(),
            src_width: 64,
            src_height: 64,
            dest_width: 64,
            dest_height: 64,
            frame: 1,
            total_frames: 1,
        }),
        keyboard_controlled: keyboard,
    }
}

fn world_with(builders: Vec<EntityBuilder>) -> (World, Vec<Entity>) {
    let mut w = World::new();
    let mut ids = vec![];
    for b in builders {
        ids.push(w.create_entity(b));
    }
    w.maintain();
    (w, ids)
}

#[test]
fn move_command_sets_speed_and_direction() {
    let (mut w, ids) = world_with(vec![player(true), player(false)]);
    w.set_movement_command(Some(MovementCommand::Move(Direction::Up)));
    Keyboard.run(&mut w);
    assert_eq!(w.velocity(ids[0]), Some(Velocity { speed: PLAYER_MOVEMENT_SPEED, dir: Direction::Up }));
    assert_eq!(w.velocity(ids[1]), Some(Velocity { speed: 0, dir: Direction::Right }));
}

#[test]
fn stop_keeps_direction() {
    let (mut w, ids) = world_with(vec![player(true)]);
    w.set_movement_command(Some(MovementCommand::Move(Direction::Left)));
    Keyboard.run(&mut w);
    w.set_movement_command(Some(MovementCommand::Stop));
    Keyboard.run(&mut w);
    assert_eq!(w.velocity(ids[0]), Some(Velocity { speed: 0, dir: Direction::Left }));
}

#[test]
fn no_command_changes_nothing() {
    let (mut w, ids) = world_with(vec![player(true)]);
    Keyboard.run(&mut w);
    assert_eq!(w.velocity(ids[0]), Some(Velocity { speed: 0, dir: Direction::Right }));
}

#[test]
fn motion_moves_along_one_axis() {
    let p = Position::new(450, 350);
    assert_eq!(moved_position(p, Velocity { speed: 10, dir: Direction::Left }), Position::new(440, 350));
    assert_eq!(moved_position(p, Velocity { speed: 10, dir: Direction::Right }), Position::new(460, 350));
    assert_eq!(moved_position(p, Velocity { speed: 10, dir: Direction::Up }), Position::new(450, 340));
    assert_eq!(moved_position(p, Velocity { speed: 10, dir: Direction::Down }), Position::new(450, 360));
}

#[test]
fn commanded_velocity_cases() {
    let v = Velocity { speed: 3, dir: Direction::Down };
    assert_eq!(commanded_velocity(v, MovementCommand::Stop), Velocity { speed: 0, dir: Direction::Down });
    assert_eq!(
        commanded_velocity(v, MovementCommand::Move(Direction::Right)),
        Velocity { speed: PLAYER_MOVEMENT_SPEED, dir: Direction::Right }
    );
}

#[test]
fn physics_moves_every_entity_with_a_velocity() {
    let mut still = player(false);
    still.velocity = None;
    let mut fast = player(false);
    fast.velocity = Some(Velocity { speed: 4, dir: Direction::Down });
    let (mut w, ids) = world_with(vec![still, fast]);
    Physics.run(&mut w);
    assert_eq!(w.position(ids[0]), Some(Position::new(450, 350)));
    assert_eq!(w.position(ids[1]), Some(Position::new(450, 354)));
}

#[test]
fn stop_twice_then_no_motion() {
    let (mut w, ids) = world_with(vec![player(true)]);
    let mut d = Dispatcher::new();
    w.set_movement_command(Some(MovementCommand::Move(Direction::Right)));
    d.dispatch(&mut w);
    assert_eq!(w.position(ids[0]), Some(Position::new(460, 350)));
    w.set_movement_command(Some(MovementCommand::Stop));
    d.dispatch(&mut w);
    assert_eq!(w.velocity(ids[0]).map(|v| v.speed), Some(0));
    d.dispatch(&mut w);
    assert_eq!(w.velocity(ids[0]).map(|v| v.speed), Some(0));
    assert_eq!(w.position(ids[0]), Some(Position::new(460, 350)));
}

#[test]
fn creation_waits_for_maintain() {
    let mut w = World::new();
    let e = w.create_entity(player(true));
    assert_eq!(e, Entity { id: 0 });
    assert_eq!(w.len(), 0);
    assert_eq!(w.position(e), None);
    w.maintain();
    assert_eq!(w.len(), 1);
    assert!(w.is_keyboard_controlled(e));
    assert_eq!(w.renderable(e).map(|r| r.src_width), Some(64));
}

#[test]
fn deletion_empties_slots_at_maintain() {
    let (mut w, ids) = world_with(vec![player(true), player(false)]);
    w.delete_entity(ids[0]);
    assert_eq!(w.position(ids[0]), Some(Position::new(450, 350)));
    w.maintain();
    assert_eq!(w.position(ids[0]), None);
    assert_eq!(w.velocity(ids[0]), None);
    assert!(w.renderable(ids[0]).is_none());
    assert!(!w.is_keyboard_controlled(ids[0]));
    assert_eq!(w.position(ids[1]), Some(Position::new(450, 350)));
    assert_eq!(w.len(), 2);
}

#[test]
fn declared_access_conflicts() {
    let k = Keyboard.access();
    let p = Physics.access();
    assert_eq!(k.writes, vec![StorageKind::Velocity]);
    assert_eq!(p.writes, vec![StorageKind::Position]);
    assert!(k.conflicts_with(&p));
    assert!(p.conflicts_with(&k));
    let drawing = SystemAccess { reads: vec![StorageKind::Renderable, StorageKind::Velocity], writes: vec![] };
    assert!(!p.conflicts_with(&drawing));
    assert!(!drawing.conflicts_with(&p));
    assert!(k.conflicts_with(&drawing));
}

#[test]
fn next_tick_range_check() {
    let mut edge = player(true);
    edge.position = Some(Position::new(i64::MAX - 5, 0));
    let (mut w, _ids) = world_with(vec![edge]);
    assert!(next_tick_fits(&w));
    w.set_movement_command(Some(MovementCommand::Move(Direction::Right)));
    assert!(!next_tick_fits(&w));
    w.set_movement_command(Some(MovementCommand::Move(Direction::Left)));
    assert!(next_tick_fits(&w));
    assert!(step_fits(Position::new(i64::MIN + 10, 0), Velocity { speed: 10, dir: Direction::Left }));
    assert!(!step_fits(Position::new(i64::MIN + 9, 0), Velocity { speed: 10, dir: Direction::Left }));
}
