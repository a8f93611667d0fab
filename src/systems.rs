use vstd::prelude::*;
use crate::components::{
    can_move,
    Direction,
    commanded,
    commanded_velocity,
    moved,
    moved_position,
    MovementCommand,
    Position,
    Velocity,
    PLAYER_MOVEMENT_SPEED,
};
use crate::world::{Entity, World};

verus! {

/// A storage or shared resource of the world that a system may access.
#[derive(Clone, Copy, Debug, PartialEq, Eq, Structural)]
pub enum StorageKind {
    Position,
    Velocity,
    Renderable,
    KeyboardControlled,
    MovementCommand,
}

/// What a system declares, ahead of running, that it reads and writes.
pub struct SystemAccess {
    pub reads: Vec<StorageKind>,
    pub writes: Vec<StorageKind>,
}

/// Two declarations conflict when one writes what the other reads or writes.
pub open spec fn access_conflict(a_reads: Seq<StorageKind>, a_writes: Seq<StorageKind>, b_reads: Seq<StorageKind>, b_writes: Seq<StorageKind>) -> bool {
    exists|s: StorageKind|
        (a_writes.contains(s) && (b_reads.contains(s) || b_writes.contains(s))) || (b_writes.contains(s)
            && a_reads.contains(s))
}

fn contains_kind(v: &Vec<StorageKind>, s: StorageKind) -> (r: bool)
    ensures
        r == v@.contains(s),
{
    let mut i: usize = 0;
    while i < v.len()
        invariant
            i <= v@.len(),
            forall|j: int| 0 <= j < i ==> v@[j] != s,
        decreases v@.len() - i,
    {
        if v[i] == s {
            return true;
        }
        i = i + 1;
    }
    false
}

impl SystemAccess {
    /// Whether two systems with these declarations must not run at once.
    pub fn conflicts_with(&self, other: &SystemAccess) -> (r: bool)
        ensures
            r == access_conflict(self.reads@, self.writes@, other.reads@, other.writes@),
    {
        let mut i: usize = 0;
        while i < self.writes.len()
            invariant
                i <= self.writes@.len(),
                forall|j: int|
                    0 <= j < i ==> !other.reads@.contains(#[trigger] self.writes@[j])
                        && !other.writes@.contains(self.writes@[j]),
            decreases self.writes@.len() - i,
        {
            let s = self.writes[i];
            if contains_kind(&other.reads, s) || contains_kind(&other.writes, s) {
                return true;
            }
            i = i + 1;
        }
        let mut i: usize = 0;
        while i < other.writes.len()
            invariant
                i <= other.writes@.len(),
                forall|s: StorageKind|
                    self.writes@.contains(s) ==> !other.reads@.contains(s) && !other.writes@.contains(s),
                forall|j: int| 0 <= j < i ==> !self.reads@.contains(#[trigger] other.writes@[j]),
            decreases other.writes@.len() - i,
        {
            if contains_kind(&self.reads, other.writes[i]) {
                return true;
            }
            i = i + 1;
        }
        false
    }
}

/// The effect of the input system on one entity's velocity slot.
pub open spec fn input_effect(cmd: Option<MovementCommand>, tagged: bool, v: Option<Velocity>) -> Option<Velocity> {
    match (cmd, v) {
        (Some(c), Some(vel)) => if tagged {
            Some(commanded(vel, c))
        } else {
            v
        },
        _ => v,
    }
}

/// The velocity storage after the input system has run.
pub open spec fn input_step(cmd: Option<MovementCommand>, tags: Seq<bool>, vs: Seq<Option<Velocity>>) -> Seq<Option<Velocity>> {
    Seq::new(vs.len(), |i: int| input_effect(cmd, tags[i], vs[i]))
}

/// The effect of the motion system on one entity's position slot.
pub open spec fn motion_effect(p: Option<Position>, v: Option<Velocity>) -> Option<Position> {
    match (p, v) {
        (Some(pos), Some(vel)) => Some(moved(pos, vel)),
        _ => p,
    }
}

/// The position storage after the motion system has run.
pub open spec fn motion_step(ps: Seq<Option<Position>>, vs: Seq<Option<Velocity>>) -> Seq<Option<Position>> {
    Seq::new(ps.len(), |i: int| motion_effect(ps[i], vs[i]))
}

/// No entity with a position and a velocity would leave the coordinate range.
pub open spec fn motion_fits(ps: Seq<Option<Position>>, vs: Seq<Option<Velocity>>) -> bool {
    forall|i: int|
        0 <= i < ps.len() && (#[trigger] ps[i]) is Some && vs[i] is Some ==> can_move(
            ps[i]->Some_0,
            vs[i]->Some_0,
        )
}

/// Whether one step of `v` from `p` stays within the coordinate range.
pub fn step_fits(p: Position, v: Velocity) -> (r: bool)
    ensures
        r == can_move(p, v),
{
    let s = v.speed as i128;
    let x = p.x as i128;
    let y = p.y as i128;
    let (nx, ny) = match v.dir {
        Direction::Left => (x - s, y),
        Direction::Right => (x + s, y),
        Direction::Up => (x, y - s),
        Direction::Down => (x, y + s),
    };
    i64::MIN as i128 <= nx && nx <= i64::MAX as i128 && i64::MIN as i128 <= ny && ny
        <= i64::MAX as i128
}

/// Whether the next tick keeps every moving entity within the coordinate
/// range: exactly the condition `Dispatcher::dispatch` needs.
pub fn next_tick_fits(world: &World) -> (r: bool)
    requires
        world.wf(),
    ensures
        r == motion_fits(
            world.positions(),
            input_step(world.command(), world.controlled(), world.velocities()),
        ),
{
    let ghost next = input_step(world.command(), world.controlled(), world.velocities());
    let cmd = world.movement_command();
    let n = world.len();
    let mut i: usize = 0;
    while i < n
        invariant
            world.wf(),
            n == world.count(),
            i <= n,
            cmd == world.command(),
            next == input_step(world.command(), world.controlled(), world.velocities()),
            forall|j: int|
                0 <= j < i && (#[trigger] world.positions()[j]) is Some && next[j] is Some ==> can_move(
                    world.positions()[j]->Some_0,
                    next[j]->Some_0,
                ),
        decreases n - i,
    {
        let e = Entity { id: i };
        match (world.position(e), world.velocity(e)) {
            (Some(p), Some(v)) => {
                let after = match cmd {
                    Some(c) => if world.is_keyboard_controlled(e) {
                        commanded_velocity(v, c)
                    } else {
                        v
                    },
                    None => v,
                };
                assert(next[i as int] == Some(after));
                if !step_fits(p, after) {
                    assert(world.positions()[i as int] is Some);
                    return false;
                }
            },
            _ => {},
        }
        i = i + 1;
    }
    true
}

/// Turns the movement command into the velocity of every keyboard-controlled
/// entity.
pub struct Keyboard;

impl Keyboard {
    /// Reads the command and the tags, writes velocities.
    pub fn access(&self) -> (r: SystemAccess)
        ensures
            r.reads@ == seq![StorageKind::MovementCommand, StorageKind::KeyboardControlled],
            r.writes@ == seq![StorageKind::Velocity],
    {
        SystemAccess {
            reads: vec![StorageKind::MovementCommand, StorageKind::KeyboardControlled],
            writes: vec![StorageKind::Velocity],
        }
    }

    /// With no command yet, nothing changes; otherwise each entity that is
    /// keyboard-controlled and has a velocity gets the commanded one.
    pub fn run(&mut self, world: &mut World)
        requires
            old(world).wf(),
        ensures
            final(world).wf(),
            final(world).velocities() == input_step(
                old(world).command(),
                old(world).controlled(),
                old(world).velocities(),
            ),
            World::same_but_velocities(*final(world), *old(world)),
    {
        let ghost w0 = *world;
        let cmd = match world.movement_command() {
            Some(c) => c,
            None => {
                assert(world.velocities() =~= input_step(w0.command(), w0.controlled(), w0.velocities()));
                return;
            },
        };
        let n = world.len();
        let mut i: usize = 0;
        while i < n
            invariant
                world.wf(),
                n == world.count(),
                n == w0.count(),
                w0.wf(),
                w0.command() == Some(cmd),
                i <= n,
                World::same_but_velocities(*world, w0),
                world.velocities().len() == n,
                forall|j: int|
                    0 <= j < i ==> world.velocities()[j] == input_effect(
                        w0.command(),
                        w0.controlled()[j],
                        w0.velocities()[j],
                    ),
                forall|j: int| i <= j < n ==> world.velocities()[j] == w0.velocities()[j],
            decreases n - i,
        {
            let e = Entity { id: i };
            if world.is_keyboard_controlled(e) {
                if let Some(v) = world.velocity(e) {
                    world.set_velocity(e, commanded_velocity(v, cmd));
                }
            }
            i = i + 1;
        }
        assert(world.velocities() =~= input_step(w0.command(), w0.controlled(), w0.velocities()));
    }
}

/// Moves every entity that has a position and a velocity by one step.
pub struct Physics;

impl Physics {
    /// Reads velocities, writes positions.
    pub fn access(&self) -> (r: SystemAccess)
        ensures
            r.reads@ == seq![StorageKind::Velocity],
            r.writes@ == seq![StorageKind::Position],
    {
        SystemAccess { reads: vec![StorageKind::Velocity], writes: vec![StorageKind::Position] }
    }

    pub fn run(&mut self, world: &mut World)
        requires
            old(world).wf(),
            motion_fits(old(world).positions(), old(world).velocities()),
        ensures
            final(world).wf(),
            final(world).positions() == motion_step(old(world).positions(), old(world).velocities()),
            World::same_but_positions(*final(world), *old(world)),
    {
        let ghost w0 = *world;
        let n = world.len();
        let mut i: usize = 0;
        while i < n
            invariant
                world.wf(),
                n == world.count(),
                n == w0.count(),
                w0.wf(),
                motion_fits(w0.positions(), w0.velocities()),
                i <= n,
                World::same_but_positions(*world, w0),
                forall|j: int|
                    0 <= j < i ==> world.positions()[j] == motion_effect(
                        w0.positions()[j],
                        w0.velocities()[j],
                    ),
                forall|j: int| i <= j < n ==> world.positions()[j] == w0.positions()[j],
            decreases n - i,
        {
            let e = Entity { id: i };
            match (world.position(e), world.velocity(e)) {
                (Some(p), Some(v)) => {
                    assert(w0.positions()[i as int] is Some);
                    world.set_position(e, moved_position(p, v));
                },
                _ => {},
            }
            i = i + 1;
        }
        assert(world.positions() =~= motion_step(w0.positions(), w0.velocities()));
    }
}

/// Runs the systems once per tick in dependency order: input first, then
/// motion, which depends on it.
pub struct Dispatcher {
    keyboard: Keyboard,
    physics: Physics,
}

impl Dispatcher {
    pub fn new() -> (r: Dispatcher) {
        Dispatcher { keyboard: Keyboard, physics: Physics }
    }

    /// One tick: velocities follow the command, then positions follow the
    /// new velocities. Queued structural changes wait for `World::maintain`.
    pub fn dispatch(&mut self, world: &mut World)
        requires
            old(world).wf(),
            motion_fits(
                old(world).positions(),
                input_step(old(world).command(), old(world).controlled(), old(world).velocities()),
            ),
        ensures
            final(world).wf(),
            final(world).velocities() == input_step(
                old(world).command(),
                old(world).controlled(),
                old(world).velocities(),
            ),
            final(world).positions() == motion_step(old(world).positions(), final(world).velocities()),
            final(world).renderables() == old(world).renderables(),
            final(world).controlled() == old(world).controlled(),
            final(world).command() == old(world).command(),
            final(world).creates() == old(world).creates(),
            final(world).deletes() == old(world).deletes(),
    {
        self.keyboard.run(world);
        self.physics.run(world);
    }
}

/// After the input system handles `Move(d)`, every keyboard-controlled entity
/// with a velocity moves at the player speed along `d`; after `Stop`, its speed
/// is zero and its direction is the one it had.
pub proof fn lemma_input_sets_velocity(
    c: MovementCommand,
    tags: Seq<bool>,
    vs: Seq<Option<Velocity>>,
    i: int,
)
    requires
        tags.len() == vs.len(),
        0 <= i < vs.len(),
        tags[i],
        vs[i] is Some,
    ensures
        input_step(Some(c), tags, vs)[i] is Some,
        ({
            let after = input_step(Some(c), tags, vs)[i]->Some_0;
            match c {
                MovementCommand::Move(d) => after.speed == PLAYER_MOVEMENT_SPEED && after.dir == d,
                MovementCommand::Stop => after.speed == 0 && after.dir == vs[i]->Some_0.dir,
            }
        }),
{
}

/// One motion step changes exactly one coordinate, by plus or minus the speed,
/// and leaves the other as it was.
pub proof fn lemma_motion_one_axis(p: Position, v: Velocity)
    requires
        can_move(p, v),
    ensures
        ({
            let m = moved(p, v);
            (m.y == p.y && (m.x - p.x == v.speed || m.x - p.x == -v.speed)) || (m.x == p.x && (m.y
                - p.y == v.speed || m.y - p.y == -v.speed))
        }),
        ({
            let m = moved(p, v);
            match v.dir {
                Direction::Left | Direction::Right => m.y == p.y,
                Direction::Up | Direction::Down => m.x == p.x,
            }
        }),
{
}

/// The same over a whole tick of the motion system: every entity with a
/// position and a velocity moves along one axis by its speed.
pub proof fn lemma_motion_step_one_axis(ps: Seq<Option<Position>>, vs: Seq<Option<Velocity>>, i: int)
    requires
        ps.len() == vs.len(),
        motion_fits(ps, vs),
        0 <= i < ps.len(),
        ps[i] is Some,
        vs[i] is Some,
    ensures
        ({
            let p = ps[i]->Some_0;
            let s = vs[i]->Some_0.speed;
            let m = motion_step(ps, vs)[i]->Some_0;
            &&& motion_step(ps, vs)[i] is Some
            &&& (m.y == p.y && (m.x - p.x == s || m.x - p.x == -s)) || (m.x == p.x && (m.y - p.y == s
                || m.y - p.y == -s))
        }),
{
    lemma_motion_one_axis(ps[i]->Some_0, vs[i]->Some_0);
}

/// Over a whole motion tick, no entity with a position and a velocity changes
/// both coordinates.
pub proof fn lemma_motion_never_diagonal(ps: Seq<Option<Position>>, vs: Seq<Option<Velocity>>)
    requires
        ps.len() == vs.len(),
        motion_fits(ps, vs),
    ensures
        forall|i: int|
            0 <= i < ps.len() && ps[i] is Some && vs[i] is Some ==> {
                let m = (#[trigger] motion_step(ps, vs)[i])->Some_0;
                m.x == ps[i]->Some_0.x || m.y == ps[i]->Some_0.y
            },
{
    assert forall|i: int| 0 <= i < ps.len() && ps[i] is Some && vs[i] is Some implies {
        let m = (#[trigger] motion_step(ps, vs)[i])->Some_0;
        m.x == ps[i]->Some_0.x || m.y == ps[i]->Some_0.y
    } by {
        lemma_motion_one_axis(ps[i]->Some_0, vs[i]->Some_0);
    }
}

/// A motion tick leaves in place every entity whose speed is zero, tick after
/// tick while it stays stopped.
pub proof fn lemma_stopped_entities_stay(ps: Seq<Option<Position>>, vs: Seq<Option<Velocity>>)
    requires
        ps.len() == vs.len(),
    ensures
        forall|i: int|
            0 <= i < ps.len() && vs[i] is Some && vs[i]->Some_0.speed == 0 ==> #[trigger] motion_step(
                ps,
                vs,
            )[i] == ps[i],
{
}

/// `Stop` handled twice leaves the same velocities as handled once, with
/// speed zero both times, and from then on a motion tick no longer moves the
/// keyboard-controlled entities.
pub proof fn lemma_stop_idempotent(tags: Seq<bool>, ps: Seq<Option<Position>>, vs: Seq<Option<Velocity>>)
    requires
        tags.len() == vs.len(),
        ps.len() == vs.len(),
    ensures
        ({
            let once = input_step(Some(MovementCommand::Stop), tags, vs);
            let twice = input_step(Some(MovementCommand::Stop), tags, once);
            &&& twice == once
            &&& forall|i: int|
                0 <= i < vs.len() && tags[i] && vs[i] is Some ==> (#[trigger] once[i])->Some_0.speed == 0
                    && twice[i]->Some_0.speed == 0
            &&& forall|i: int|
                0 <= i < vs.len() && tags[i] && vs[i] is Some ==> #[trigger] motion_step(ps, twice)[i]
                    == ps[i]
        }),
{
    let once = input_step(Some(MovementCommand::Stop), tags, vs);
    let twice = input_step(Some(MovementCommand::Stop), tags, once);
    assert(twice =~= once);
    assert forall|i: int| 0 <= i < vs.len() && tags[i] && vs[i] is Some implies #[trigger] motion_step(
        ps,
        twice,
    )[i] == ps[i] by {
        assert(twice[i]->Some_0.speed == 0);
    }
}

} // verus!
