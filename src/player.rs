use vstd::prelude::*;

verus! {

/// A sprite with a texture, a pixel position and size, and a fixed step per
/// axis.
pub struct Player {
    texture_path: String,
    position: (i32, i32),
    size: (u32, u32),
    velocity: (i32, i32),
}

/// Step per axis given to every new player.
pub const PLAYER_STEP: i32 = 10;

impl Player {
    pub closed spec fn spec_texture_path(&self) -> Seq<char> {
        self.texture_path@
    }

    pub closed spec fn spec_position(&self) -> (i32, i32) {
        self.position
    }

    pub closed spec fn spec_size(&self) -> (u32, u32) {
        self.size
    }

    pub closed spec fn spec_velocity(&self) -> (i32, i32) {
        self.velocity
    }

    /// Where `move_to(dir)` would put the player, as integers.
    pub open spec fn target(&self, dir: (i32, i32)) -> (int, int) {
        (
            self.spec_position().0 + dir.0 * self.spec_velocity().0,
            self.spec_position().1 + dir.1 * self.spec_velocity().1,
        )
    }

    pub fn new(texture_path: String, position: (i32, i32), size: (u32, u32)) -> (r: Player)
        ensures
            r.spec_texture_path() == texture_path@,
            r.spec_position() == position,
            r.spec_size() == size,
            r.spec_velocity() == (PLAYER_STEP, PLAYER_STEP),
    {
        Player { texture_path, position, size, velocity: (PLAYER_STEP, PLAYER_STEP) }
    }

    pub fn texture_path(&self) -> (r: String)
        ensures
            r@ == self.spec_texture_path(),
    {
        self.texture_path.clone()
    }

    pub fn x(&self) -> (r: i32)
        ensures
            r == self.spec_position().0,
    {
        self.position.0
    }

    pub fn y(&self) -> (r: i32)
        ensures
            r == self.spec_position().1,
    {
        self.position.1
    }

    pub fn width(&self) -> (r: u32)
        ensures
            r == self.spec_size().0,
    {
        self.size.0
    }

    pub fn height(&self) -> (r: u32)
        ensures
            r == self.spec_size().1,
    {
        self.size.1
    }

    /// Moves by `dir` steps along each axis.
    pub fn move_to(&mut self, dir: (i32, i32))
        requires
            i32::MIN <= old(self).target(dir).0 <= i32::MAX,
            i32::MIN <= old(self).target(dir).1 <= i32::MAX,
            i32::MIN <= dir.0 * old(self).spec_velocity().0 <= i32::MAX,
            i32::MIN <= dir.1 * old(self).spec_velocity().1 <= i32::MAX,
        ensures
            final(self).spec_position() == ((old(self).target(dir).0 as i32, old(self).target(dir).1 as i32)),
            final(self).spec_size() == old(self).spec_size(),
            final(self).spec_velocity() == old(self).spec_velocity(),
            final(self).spec_texture_path() == old(self).spec_texture_path(),
    {
        self.position.0 = self.position.0 + dir.0 * self.velocity.0;
        self.position.1 = self.position.1 + dir.1 * self.velocity.1;
    }
}

} // verus!
