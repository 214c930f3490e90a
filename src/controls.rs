use vstd::prelude::*;
use crate::game::GameState;
use crate::geometry::Vec2;

verus! {

/// The keys the game reacts to; every other key is `Other`.
#[derive(Clone, Copy, Debug, PartialEq, Eq, Structural)]
pub enum Key {
    Esc,
    Q,
    W,
    A,
    S,
    D,
    Other,
}

/// Whether the key ends the game.
pub open spec fn is_quit(key: Key) -> bool {
    key == Key::Esc || key == Key::Q
}

/// The heading after `key` is pressed while heading `current`: each
/// direction key sets its unit step whatever the current one is.
pub open spec fn heading_after(key: Key, current: Vec2) -> Vec2 {
    match key {
        Key::A => Vec2 { x: -1i32, y: 0 },
        Key::S => Vec2 { x: 0, y: 1 },
        Key::D => Vec2 { x: 1, y: 0 },
        Key::W => Vec2 { x: 0, y: -1i32 },
        _ => current,
    }
}

impl GameState {
    /// Reacts to one pressed key: a direction key turns the snake, a quit
    /// key asks to stop. Returns whether the game goes on.
    pub fn handle_key(&mut self, key: Key) -> (keep_running: bool)
        ensures
            keep_running == !is_quit(key),
            final(self).snake.direction == heading_after(key, old(self).snake.direction),
            final(self).snake.head == old(self).snake.head,
            final(self).snake.speed == old(self).snake.speed,
            final(self).snake.tail@ == old(self).snake.tail@,
            final(self).food_position == old(self).food_position,
    {
        match key {
            Key::Esc | Key::Q => false,
            Key::A => {
                self.snake.direction = Vec2::xy(-1, 0);
                true
            },
            Key::S => {
                self.snake.direction = Vec2::xy(0, 1);
                true
            },
            Key::D => {
                self.snake.direction = Vec2::xy(1, 0);
                true
            },
            Key::W => {
                self.snake.direction = Vec2::xy(0, -1);
                true
            },
            Key::Other => true,
        }
    }
}

} // verus!
