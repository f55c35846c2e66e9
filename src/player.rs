use vstd::prelude::*;
use crate::sprite::{Blit, Position, Rect, SpriteAnimation, Texture};

verus! {

/// The four directions the player can face and move in.
#[derive(Clone, Copy, Debug, PartialEq, Eq, Hash, Structural)]
pub enum Direction {
    UP,
    DOWN,
    LEFT,
    RIGHT,
}

/// Which animation is shown: standing still or running, facing a direction.
#[derive(Clone, Copy, Debug, PartialEq, Eq, Hash, Structural)]
pub enum AnimationType {
    Idle(Direction),
    Run(Direction),
}

/// Why a player operation could not be carried out.
#[derive(Clone, Copy, Debug, PartialEq, Eq, Structural)]
pub enum PlayerError {
    /// The active animation was never added to the player.
    MissingAnimation(AnimationType),
}

/// Number of distinct animation keys: two modes times four directions.
pub const NUM_ANIMATION_TYPES: usize = 8;

/// A distinct index in `0..4` for each direction.
pub open spec fn direction_index(d: Direction) -> int {
    match d {
        Direction::UP => 0,
        Direction::DOWN => 1,
        Direction::LEFT => 2,
        Direction::RIGHT => 3,
    }
}

/// The slot that holds the animation of key `k`.
pub open spec fn slot(k: AnimationType) -> int {
    match k {
        AnimationType::Idle(d) => direction_index(d),
        AnimationType::Run(d) => 4 + direction_index(d),
    }
}

/// The slot of key `k` in the player's animation table.
fn slot_of(k: AnimationType) -> (r: usize)
    ensures
        r == slot(k),
        r < NUM_ANIMATION_TYPES,
{
    let d = match k {
        AnimationType::Idle(d) => d,
        AnimationType::Run(d) => d,
    };
    let i: usize = match d {
        Direction::UP => 0,
        Direction::DOWN => 1,
        Direction::LEFT => 2,
        Direction::RIGHT => 3,
    };
    match k {
        AnimationType::Idle(_) => i,
        AnimationType::Run(_) => 4 + i,
    }
}

/// Whether a point given by two integers has both coordinates in `i64`.
pub open spec fn fits_i64(p: (int, int)) -> bool {
    &&& i64::MIN <= p.0 <= i64::MAX
    &&& i64::MIN <= p.1 <= i64::MAX
}

/// Whether a position can move by `speed` in every direction without
/// leaving the range of `i64`.
pub open spec fn can_move(pos: Position, speed: u32) -> bool {
    &&& i64::MIN + speed <= pos.x <= i64::MAX - speed
    &&& i64::MIN + speed <= pos.y <= i64::MAX - speed
}

/// The keys of one tick of input: which direction keys are held down, and
/// which were released since the previous tick.
#[derive(Clone, Copy, Debug, PartialEq, Eq, Structural)]
pub struct Input {
    pub held_left: bool,
    pub held_right: bool,
    pub held_down: bool,
    pub held_up: bool,
    pub released_left: bool,
    pub released_right: bool,
    pub released_down: bool,
    pub released_up: bool,
}

/// Whether the key of direction `d` was released in `input`.
pub open spec fn released(input: Input, d: Direction) -> bool {
    match d {
        Direction::UP => input.released_up,
        Direction::DOWN => input.released_down,
        Direction::LEFT => input.released_left,
        Direction::RIGHT => input.released_right,
    }
}

/// The active animation after one tick of input. Held keys are taken in the
/// order left, right, down, up, then released keys in the same order; each
/// one overrides the ones before it.
pub open spec fn animation_after(input: Input, current: AnimationType) -> AnimationType {
    if input.released_up {
        AnimationType::Idle(Direction::UP)
    } else if input.released_down {
        AnimationType::Idle(Direction::DOWN)
    } else if input.released_right {
        AnimationType::Idle(Direction::RIGHT)
    } else if input.released_left {
        AnimationType::Idle(Direction::LEFT)
    } else if input.held_up {
        AnimationType::Run(Direction::UP)
    } else if input.held_down {
        AnimationType::Run(Direction::DOWN)
    } else if input.held_right {
        AnimationType::Run(Direction::RIGHT)
    } else if input.held_left {
        AnimationType::Run(Direction::LEFT)
    } else {
        current
    }
}

/// The position after one tick of input: one step for each held key.
pub open spec fn position_after(input: Input, pos: Position, speed: u32) -> (int, int) {
    let s = speed as int;
    (
        pos.x + (if input.held_right { s } else { 0 }) - (if input.held_left { s } else { 0 }),
        pos.y + (if input.held_down { s } else { 0 }) - (if input.held_up { s } else { 0 }),
    )
}

/// Releasing the key of direction `d`, and no other, leaves the player idle
/// facing `d`, whatever keys are held and whatever was active before.
pub proof fn lemma_release_sets_idle(input: Input, current: AnimationType, d: Direction)
    requires
        released(input, d),
        forall|e: Direction| e != d ==> !#[trigger] released(input, e),
    ensures
        animation_after(input, current) == AnimationType::Idle(d),
{
    assert(released(input, Direction::UP) == input.released_up);
    assert(released(input, Direction::DOWN) == input.released_down);
    assert(released(input, Direction::LEFT) == input.released_left);
    assert(released(input, Direction::RIGHT) == input.released_right);
}

/// The position after one step of `speed` pixels towards `dir`
/// (y grows downwards).
pub open spec fn moved(pos: Position, dir: Direction, speed: u32) -> (int, int) {
    match dir {
        Direction::UP => (pos.x as int, pos.y - speed),
        Direction::DOWN => (pos.x as int, pos.y + speed),
        Direction::LEFT => (pos.x - speed, pos.y as int),
        Direction::RIGHT => (pos.x + speed, pos.y as int),
    }
}

/// The player: its animations by key, where it stands, and which animation
/// is active.
pub struct Player {
    pub collision: Rect,
    pub animations: Vec<Option<SpriteAnimation>>,
    pub pos: Position,
    pub current_animation: AnimationType,
    pub is_moving: bool,
    pub speed: u32,
}

impl Player {
    /// One slot per animation key, and every stored animation well formed.
    pub open spec fn wf(&self) -> bool {
        &&& self.animations@.len() == NUM_ANIMATION_TYPES
        &&& forall|i: int|
            0 <= i < NUM_ANIMATION_TYPES && (#[trigger] self.animations@[i]) is Some
                ==> self.animations@[i]->Some_0.wf()
    }

    /// The animation stored under key `k`, if one was added.
    pub open spec fn anim(&self, k: AnimationType) -> Option<SpriteAnimation> {
        self.animations@[slot(k)]
    }

    /// A player with no animations yet, at the origin, idle and facing down.
    pub fn new(x: i64, y: i64, width: i64, height: i64, speed: u32) -> (r: Player)
        ensures
            r.wf(),
            forall|k: AnimationType| (#[trigger] r.anim(k)) is None,
            r.collision == (Rect { x, y, width, height }),
            r.pos == (Position { x: 0, y: 0 }),
            r.current_animation == AnimationType::Idle(Direction::DOWN),
            !r.is_moving,
            r.speed == speed,
    {
        let mut animations: Vec<Option<SpriteAnimation>> = Vec::new();
        let mut i: usize = 0;
        while i < NUM_ANIMATION_TYPES
            invariant
                i <= NUM_ANIMATION_TYPES,
                animations@.len() == i,
                forall|j: int| 0 <= j < i ==> (#[trigger] animations@[j]) is None,
            decreases NUM_ANIMATION_TYPES - i,
        {
            animations.push(None);
            i = i + 1;
        }
        Player {
            collision: Rect { x, y, width, height },
            animations,
            pos: Position { x: 0, y: 0 },
            current_animation: AnimationType::Idle(Direction::DOWN),
            is_moving: false,
            speed,
        }
    }

    /// Stores a fresh animation of `num_frames` frames on `sprite` under
    /// `animation_type`, replacing any earlier one under that key.
    pub fn add_animation(
        &mut self,
        animation_type: AnimationType,
        sprite: Texture,
        num_frames: u32,
        speed: u32,
    )
        requires
            old(self).wf(),
            num_frames >= 1,
            speed >= 1,
        ensures
            final(self).wf(),
            final(self).anim(animation_type) == Some(SpriteAnimation::fresh(sprite, num_frames, speed)),
            forall|k: AnimationType|
                k != animation_type ==> #[trigger] final(self).anim(k) == old(self).anim(k),
            final(self).collision == old(self).collision,
            final(self).pos == old(self).pos,
            final(self).current_animation == old(self).current_animation,
            final(self).is_moving == old(self).is_moving,
            final(self).speed == old(self).speed,
    {
        let animation = SpriteAnimation::new(sprite, num_frames, speed);
        let i = slot_of(animation_type);
        self.animations[i] = Some(animation);
        proof {
            assert forall|k: AnimationType| k != animation_type implies #[trigger] slot(k) != slot(
                animation_type,
            ) by {}
        }
    }

    /// The animation stored under key `k`, if one was added.
    pub fn animation(&self, k: AnimationType) -> (r: Option<&SpriteAnimation>)
        requires
            self.wf(),
        ensures
            r is Some <==> self.anim(k) is Some,
            r is Some ==> *r->Some_0 == self.anim(k)->Some_0,
    {
        let i = slot_of(k);
        match &self.animations[i] {
            Some(a) => Some(a),
            None => None,
        }
    }

    /// Makes `animation_type` the active animation.
    pub fn change_animation(&mut self, animation_type: AnimationType)
        ensures
            final(self).current_animation == animation_type,
            final(self).animations == old(self).animations,
            final(self).collision == old(self).collision,
            final(self).pos == old(self).pos,
            final(self).is_moving == old(self).is_moving,
            final(self).speed == old(self).speed,
    {
        self.current_animation = animation_type;
    }

    /// Advances the active animation by one tick.
    pub fn animate(&mut self) -> (r: Result<(), PlayerError>)
        requires
            old(self).wf(),
        ensures
            final(self).wf(),
            old(self).anim(old(self).current_animation) is None <==> r == Err::<(), PlayerError>(
                PlayerError::MissingAnimation(old(self).current_animation),
            ),
            old(self).anim(old(self).current_animation) is Some <==> r is Ok,
            r is Err ==> final(self).animations@ == old(self).animations@,
            r is Ok ==> ({
                let a = old(self).anim(old(self).current_animation)->Some_0;
                let b = final(self).anim(old(self).current_animation)->Some_0;
                &&& final(self).anim(old(self).current_animation) is Some
                &&& (b.frames_counter as nat, b.current_frame as nat) == crate::sprite::tick(
                    a.frames_counter as nat,
                    a.current_frame as nat,
                    a.num_frames as nat,
                    a.anim_speed,
                )
                &&& b.texture == a.texture
                &&& b.frame_width == a.frame_width
                &&& b.num_frames == a.num_frames
                &&& b.anim_speed == a.anim_speed
            }),
            forall|k: AnimationType|
                k != old(self).current_animation ==> #[trigger] final(self).anim(k) == old(
                    self,
                ).anim(k),
            final(self).collision == old(self).collision,
            final(self).pos == old(self).pos,
            final(self).current_animation == old(self).current_animation,
            final(self).is_moving == old(self).is_moving,
            final(self).speed == old(self).speed,
    {
        let i = slot_of(self.current_animation);
        proof {
            assert forall|k: AnimationType| k != self.current_animation implies #[trigger] slot(k)
                != slot(self.current_animation) by {}
        }
        match &mut self.animations[i] {
            Some(animation) => {
                animation.animate();
                Ok(())
            },
            None => Err(PlayerError::MissingAnimation(self.current_animation)),
        }
    }

    /// The blit that shows the active animation's current frame at the
    /// player's position.
    pub fn draw(&self) -> (r: Result<Blit, PlayerError>)
        requires
            self.wf(),
        ensures
            self.anim(self.current_animation) is None <==> r == Err::<Blit, PlayerError>(
                PlayerError::MissingAnimation(self.current_animation),
            ),
            self.anim(self.current_animation) is Some <==> r is Ok,
            r is Ok ==> ({
                let a = self.anim(self.current_animation)->Some_0;
                let b = r->Ok_0;
                &&& self.anim(self.current_animation) is Some
                &&& b.texture == a.texture.handle
                &&& b.source == (Rect {
                    x: (a.current_frame * a.frame_width) as i64,
                    y: 0,
                    width: a.frame_width as i64,
                    height: a.texture.height as i64,
                })
                &&& b.dest == (Rect {
                    x: self.pos.x,
                    y: self.pos.y,
                    width: a.frame_width as i64,
                    height: a.texture.height as i64,
                })
            }),
    {
        let i = slot_of(self.current_animation);
        match &self.animations[i] {
            Some(animation) => Ok(animation.draw(self.pos)),
            None => Err(PlayerError::MissingAnimation(self.current_animation)),
        }
    }

    /// Steps `speed` pixels towards `dir` and switches to running that way.
    pub fn move_player(&mut self, dir: Direction)
        requires
            fits_i64(moved(old(self).pos, dir, old(self).speed)),
        ensures
            (final(self).pos.x as int, final(self).pos.y as int) == moved(
                old(self).pos,
                dir,
                old(self).speed,
            ),
            final(self).current_animation == AnimationType::Run(dir),
            final(self).animations == old(self).animations,
            final(self).collision == old(self).collision,
            final(self).is_moving == old(self).is_moving,
            final(self).speed == old(self).speed,
    {
        let s = self.speed as i64;
        match dir {
            Direction::UP => {
                self.pos.y = self.pos.y - s;
            },
            Direction::DOWN => {
                self.pos.y = self.pos.y + s;
            },
            Direction::RIGHT => {
                self.pos.x = self.pos.x + s;
            },
            Direction::LEFT => {
                self.pos.x = self.pos.x - s;
            },
        }
        self.change_animation(AnimationType::Run(dir));
    }

    /// Applies one tick of input: a step and a run animation for each held
    /// key, then an idle animation for each released key.
    pub fn handle_input(&mut self, input: Input)
        requires
            can_move(old(self).pos, old(self).speed),
        ensures
            (final(self).pos.x as int, final(self).pos.y as int) == position_after(
                input,
                old(self).pos,
                old(self).speed,
            ),
            final(self).current_animation == animation_after(
                input,
                old(self).current_animation,
            ),
            final(self).animations == old(self).animations,
            final(self).collision == old(self).collision,
            final(self).is_moving == old(self).is_moving,
            final(self).speed == old(self).speed,
    {
        if input.held_left {
            self.move_player(Direction::LEFT);
        }
        if input.held_right {
            self.move_player(Direction::RIGHT);
        }
        if input.held_down {
            self.move_player(Direction::DOWN);
        }
        if input.held_up {
            self.move_player(Direction::UP);
        }
        if input.released_left {
            self.change_animation(AnimationType::Idle(Direction::LEFT));
        }
        if input.released_right {
            self.change_animation(AnimationType::Idle(Direction::RIGHT));
        }
        if input.released_down {
            self.change_animation(AnimationType::Idle(Direction::DOWN));
        }
        if input.released_up {
            self.change_animation(AnimationType::Idle(Direction::UP));
        }
    }
}

} // verus!
