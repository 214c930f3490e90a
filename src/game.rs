use vstd::prelude::*;
use crate::geometry::Vec2;
use crate::snake::{chain_shift, moves_on, SnakeState};

verus! {

/// The speed every new snake starts with.
pub const INITIAL_SPEED: usize = 5;

/// Relies on rand's `thread_rng` and `Rng::gen_range` over `0..bound`:
/// the value is drawn from `[0, bound)`, and an empty range panics.
#[verifier::external_body]
fn random_below(bound: i32) -> (r: i32)
    requires
        bound > 0,
    ensures
        0 <= r < bound,
{
    rand::Rng::gen_range(&mut rand::thread_rng(), 0..bound)
}

/// The whole game: the snake and the one piece of food.
pub struct GameState {
    pub snake: SnakeState,
    pub food_position: Vec2,
}

/// Whether a window of this size has room for at least one cell.
pub open spec fn has_room(winsize: Vec2) -> bool {
    winsize.x > 0 && winsize.y > 0
}

/// The middle cell of a window of size `winsize`.
pub open spec fn center_of(winsize: Vec2) -> Vec2 {
    Vec2 { x: (winsize.x / 2) as i32, y: (winsize.y / 2) as i32 }
}

/// The point `k` rows below `p`.
pub open spec fn below(p: Vec2, k: int) -> Vec2 {
    Vec2 { x: p.x, y: (p.y + k) as i32 }
}

/// The unit step upwards (rows count downwards).
pub open spec fn up() -> Vec2 {
    Vec2 { x: 0, y: -1i32 }
}

/// Where the head of `s` is after its update on `frame`.
pub open spec fn head_after(s: &SnakeState, frame: usize) -> Vec2 {
    if moves_on(frame, s.speed) { s.head.plus(s.direction) } else { s.head }
}

/// The body of `s` after its update on `frame`.
pub open spec fn tail_after(s: &SnakeState, frame: usize) -> Seq<Vec2> {
    if moves_on(frame, s.speed) { chain_shift(s.head, s.tail@) } else { s.tail@ }
}

impl GameState {
    /// A game in a window of size `winsize`: the snake's head at the centre,
    /// heading up, two body segments straight below it, and food at a random
    /// cell of the window.
    pub fn new(winsize: Vec2) -> (r: GameState)
        requires
            has_room(winsize),
        ensures
            r.snake.head == center_of(winsize),
            r.snake.direction == up(),
            r.snake.speed == INITIAL_SPEED,
            r.snake.tail@ == seq![below(center_of(winsize), 1), below(center_of(winsize), 2)],
            r.snake.has_valid_speed(),
            r.food_position.within(winsize),
    {
        let center_of_win = Vec2::xy(winsize.x / 2, winsize.y / 2);
        let mut tail: Vec<Vec2> = Vec::new();
        tail.push(Vec2::xy(center_of_win.x, center_of_win.y + 1));
        tail.push(Vec2::xy(center_of_win.x, center_of_win.y + 2));
        let r = GameState {
            snake: SnakeState {
                head: center_of_win,
                direction: Vec2::xy(0, -1),
                speed: INITIAL_SPEED,
                tail,
            },
            food_position: Self::random_food_position(winsize),
        };
        assert(r.snake.tail@ =~= seq![below(center_of(winsize), 1), below(center_of(winsize), 2)]);
        r
    }

    /// A cell of the window drawn at random, each coordinate on its own.
    /// Cells under the snake are not excluded.
    pub fn random_food_position(winsize: Vec2) -> (r: Vec2)
        requires
            has_room(winsize),
        ensures
            r.within(winsize),
    {
        let x = random_below(winsize.x);
        let y = random_below(winsize.y);
        Vec2::xy(x, y)
    }

    /// One frame of the game: the snake updates, and if its head is then on
    /// the food, the snake grows by a segment at the food and the food moves
    /// to a random cell of the window. Otherwise the food stays.
    pub fn update(&mut self, frame: usize, winsize: Vec2)
        requires
            has_room(winsize),
            old(self).snake.has_valid_speed(),
            moves_on(frame, old(self).snake.speed) ==> old(self).snake.head.can_add(
                old(self).snake.direction,
            ),
        ensures
            final(self).snake.head == head_after(&old(self).snake, frame),
            final(self).snake.direction == old(self).snake.direction,
            final(self).snake.speed == old(self).snake.speed,
            head_after(&old(self).snake, frame) == old(self).food_position ==> {
                &&& final(self).snake.tail@ == tail_after(&old(self).snake, frame).push(
                    old(self).food_position,
                )
                &&& final(self).food_position.within(winsize)
            },
            head_after(&old(self).snake, frame) != old(self).food_position ==> {
                &&& final(self).snake.tail@ == tail_after(&old(self).snake, frame)
                &&& final(self).food_position == old(self).food_position
            },
    {
        self.snake.update(frame);
        if self.snake.head == self.food_position {
            self.snake.add_tail(self.food_position);
            self.food_position = Self::random_food_position(winsize);
        }
    }
}

} // verus!
