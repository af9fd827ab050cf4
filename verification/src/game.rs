//! The composition root's state: a `Game` owns the snake and routes the
//! event loop's ticks, render requests and key presses to it. The drawing
//! handle, the window and the loop itself stay with the caller.

use vstd::prelude::*;

use crate::snake::{step_body, square_of, Direction, Key, Segment, Snake, Square};

verus! {

pub struct Game {
    pub snake: Snake,
}

impl Game {
    pub open spec fn wf(self) -> bool {
        self.snake.wf()
    }

    /// A fresh game around the starting snake.
    pub fn new() -> (g: Game)
        ensures
            g.wf(),
            g.snake.dir == Direction::Right,
            g.snake.body@ =~= seq![Segment { x: 0, y: 0 }, Segment { x: 0, y: 1 }],
    {
        Game { snake: Snake::new() }
    }

    /// One update tick: the snake advances one cell.
    pub fn update(&mut self)
        requires
            old(self).snake.can_advance(),
        ensures
            final(self).wf(),
            final(self).snake.dir == old(self).snake.dir,
            final(self).snake.body@ == step_body(old(self).snake.body@, old(self).snake.dir),
    {
        self.snake.update();
    }

    /// One key press: the snake's heading changes by its rules.
    pub fn pressed(&mut self, key: Key)
        ensures
            final(self).snake.body == old(self).snake.body,
            final(self).snake.dir == crate::snake::turn(old(self).snake.dir, key),
    {
        self.snake.pressed(key);
    }

    /// One render request: the squares to draw over the cleared background.
    pub fn render(&self) -> (squares: Vec<Square>)
        ensures
            squares@.len() == self.snake.body@.len(),
            forall|i: int|
                0 <= i < squares@.len() ==> squares@[i] == square_of(self.snake.body@[i]),
    {
        self.snake.render()
    }
}

} // verus!
