use vstd::prelude::*;
use crate::geometry::Vec2;

verus! {

/// The number of frames over which the snake makes `speed` moves.
pub const FRAMES_PER_ROUND: usize = 30;

/// The character drawn at the head.
pub const HEAD_GLYPH: char = '@';

/// The character drawn at each body segment.
pub const TAIL_GLYPH: char = '#';

/// Frames between two moves of a snake with the given speed.
pub open spec fn move_period(speed: usize) -> int {
    FRAMES_PER_ROUND as int / speed as int
}

/// Whether a snake with the given speed moves on the given frame.
pub open spec fn moves_on(frame: usize, speed: usize) -> bool {
    frame as int % move_period(speed) == 0
}

/// The body after one move: the first segment takes the old head position
/// and every other segment the old position of the segment ahead of it.
pub open spec fn chain_shift(head: Vec2, tail: Seq<Vec2>) -> Seq<Vec2> {
    Seq::new(tail.len(), |i: int| if i == 0 { head } else { tail[i - 1] })
}

/// The snake: where its head is, where it is heading, how often it moves,
/// and the positions of its body segments from the head backwards.
pub struct SnakeState {
    pub head: Vec2,
    pub direction: Vec2,
    pub speed: usize,
    pub tail: Vec<Vec2>,
}

impl SnakeState {
    /// Whether the speed gives a move period of at least one frame.
    pub open spec fn has_valid_speed(&self) -> bool {
        1 <= self.speed <= FRAMES_PER_ROUND
    }

    /// Advances the snake by one frame. On frames that fall on its move
    /// period the head steps by `direction` and the body follows it;
    /// on the other frames nothing changes.
    pub fn update(&mut self, frame: usize)
        requires
            old(self).has_valid_speed(),
            moves_on(frame, old(self).speed) ==> old(self).head.can_add(old(self).direction),
        ensures
            final(self).direction == old(self).direction,
            final(self).speed == old(self).speed,
            moves_on(frame, old(self).speed) ==> {
                &&& final(self).head == old(self).head.plus(old(self).direction)
                &&& final(self).tail@ == chain_shift(old(self).head, old(self).tail@)
            },
            !moves_on(frame, old(self).speed) ==> {
                &&& final(self).head == old(self).head
                &&& final(self).tail@ == old(self).tail@
            },
    {
        let period: usize = FRAMES_PER_ROUND / self.speed;
        assert(period >= 1) by (nonlinear_arith)
            requires
                period == FRAMES_PER_ROUND as int / self.speed as int,
                1 <= self.speed <= FRAMES_PER_ROUND,
        ;
        if frame % period == 0 {
            let mut last_position = self.head;
            self.head = Vec2 {
                x: self.head.x + self.direction.x,
                y: self.head.y + self.direction.y,
            };
            let ghost old_head = old(self).head;
            let ghost old_tail = old(self).tail@;
            let n: usize = self.tail.len();
            let mut i: usize = 0;
            while i < n
                invariant
                    0 <= i <= n,
                    n == old_tail.len(),
                    self.tail@.len() == n,
                    self.head == old_head.plus(old(self).direction),
                    self.direction == old(self).direction,
                    self.speed == old(self).speed,
                    last_position == (if i == 0 { old_head } else { old_tail[i - 1] }),
                    forall|j: int| 0 <= j < i ==> self.tail@[j] == chain_shift(old_head, old_tail)[j],
                    forall|j: int| i <= j < n ==> self.tail@[j] == old_tail[j],
                decreases n - i,
            {
                let current = self.tail[i];
                self.tail[i] = last_position;
                last_position = current;
                i = i + 1;
            }
            assert(self.tail@ =~= chain_shift(old_head, old_tail));
        }
    }

    /// What drawing the snake writes, in order: the head glyph at the head,
    /// then the body glyph at each segment from the head backwards.
    pub open spec fn glyphs(&self) -> Seq<(char, Vec2)> {
        seq![(HEAD_GLYPH, self.head)] + self.tail@.map_values(|p: Vec2| (TAIL_GLYPH, p))
    }

    /// The characters to write on the canvas for this snake, with their
    /// positions, in the order they are to be written.
    pub fn draw(&self) -> (r: Vec<(char, Vec2)>)
        ensures
            r@ == self.glyphs(),
    {
        let mut r: Vec<(char, Vec2)> = Vec::new();
        r.push((HEAD_GLYPH, self.head));
        let mut i: usize = 0;
        while i < self.tail.len()
            invariant
                0 <= i <= self.tail@.len(),
                r@ == seq![(HEAD_GLYPH, self.head)] + self.tail@.take(i as int).map_values(
                    |p: Vec2| (TAIL_GLYPH, p),
                ),
            decreases self.tail@.len() - i,
        {
            r.push((TAIL_GLYPH, self.tail[i]));
            i = i + 1;
            assert(self.tail@.take(i as int) =~= self.tail@.take(i - 1).push(self.tail@[i - 1]));
            assert(r@ =~= seq![(HEAD_GLYPH, self.head)] + self.tail@.take(i as int).map_values(
                |p: Vec2| (TAIL_GLYPH, p),
            ));
        }
        assert(self.tail@.take(i as int) =~= self.tail@);
        r
    }

    /// Appends a body segment at `position` behind the last one.
    pub fn add_tail(&mut self, position: Vec2)
        ensures
            final(self).tail@ == old(self).tail@.push(position),
            final(self).head == old(self).head,
            final(self).direction == old(self).direction,
            final(self).speed == old(self).speed,
    {
        self.tail.push(position)
    }
}

/// One move shifts the body right by one behind the old head: the new body
/// is the old head followed by all old segments but the last, so the body
/// keeps its length.
pub proof fn chain_shift_is_shift_right(head: Vec2, tail: Seq<Vec2>)
    ensures
        chain_shift(head, tail).len() == tail.len(),
        chain_shift(head, tail) == (seq![head] + tail).take(tail.len() as int),
{
    assert(chain_shift(head, tail) =~= (seq![head] + tail).take(tail.len() as int));
}

/// Drawing reads nothing but the head and the body, so two draws with no
/// update between them write the same characters at the same places.
pub proof fn draw_is_repeatable(a: &SnakeState, b: &SnakeState)
    requires
        a.head == b.head,
        a.tail@ == b.tail@,
    ensures
        a.glyphs() == b.glyphs(),
{
}

} // verus!
