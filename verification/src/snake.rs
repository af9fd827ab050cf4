//! The snake itself: its ordered body of grid segments (front = head,
//! back = tail), its current heading, and the three operations the event
//! loop drives: `update` (advance one cell), `pressed` (change heading),
//! `render` (compute the squares to draw).

use vstd::prelude::*;

verus! {

/// Side of one drawn grid cell, in drawing-surface units.
pub const CELL_SIZE: i64 = 20;

/// The four headings the snake can have.
#[derive(Clone, Copy, PartialEq, Eq, Structural, Debug)]
pub enum Direction {
    Right,
    Left,
    Up,
    Down,
}

/// The keys the game reacts to. `Other` stands for every key outside the
/// four movement keys; the caller maps whatever key type its event source
/// delivers onto this enum.
#[derive(Clone, Copy, PartialEq, Eq, Structural, Debug)]
pub enum Key {
    H,
    J,
    K,
    L,
    Other,
}

/// One grid cell occupied by the snake's body, in unscaled grid coordinates.
#[derive(Clone, Copy, PartialEq, Eq, Structural, Debug)]
pub struct Segment {
    pub x: i32,
    pub y: i32,
}

/// An axis-aligned square to draw, in drawing-surface units.
#[derive(Clone, Copy, PartialEq, Eq, Structural, Debug)]
pub struct Square {
    pub x: i64,
    pub y: i64,
    pub side: i64,
}

/// The heading exactly opposite to `d`.
pub open spec fn opposite(d: Direction) -> Direction {
    match d {
        Direction::Right => Direction::Left,
        Direction::Left => Direction::Right,
        Direction::Up => Direction::Down,
        Direction::Down => Direction::Up,
    }
}

/// The heading a key asks for, or `None` for a key the game ignores.
pub open spec fn key_target(k: Key) -> Option<Direction> {
    match k {
        Key::K => Some(Direction::Up),
        Key::J => Some(Direction::Down),
        Key::H => Some(Direction::Left),
        Key::L => Some(Direction::Right),
        Key::Other => None,
    }
}

/// The heading after key `k` is pressed while heading `d`: the key's
/// direction, unless the key names no direction or names the exact
/// opposite of `d`, in which case the heading stays `d`.
pub open spec fn turn(d: Direction, k: Key) -> Direction {
    match key_target(k) {
        Some(t) => if t == opposite(d) {
            d
        } else {
            t
        },
        None => d,
    }
}

/// Horizontal displacement of one step along `d`.
pub open spec fn dx(d: Direction) -> int {
    match d {
        Direction::Left => -1,
        Direction::Right => 1,
        Direction::Up => 0,
        Direction::Down => 0,
    }
}

/// Vertical displacement of one step along `d`.
pub open spec fn dy(d: Direction) -> int {
    match d {
        Direction::Left => 0,
        Direction::Right => 0,
        Direction::Up => -1,
        Direction::Down => 1,
    }
}

/// Whether one step from `s` along `d` stays inside the coordinate range.
pub open spec fn can_move(s: Segment, d: Direction) -> bool {
    i32::MIN <= s.x + dx(d) <= i32::MAX && i32::MIN <= s.y + dy(d) <= i32::MAX
}

/// The segment one step from `s` along `d`.
pub open spec fn moved(s: Segment, d: Direction) -> Segment
    recommends
        can_move(s, d),
{
    Segment { x: (s.x + dx(d)) as i32, y: (s.y + dy(d)) as i32 }
}

/// One update step on the body: the head advances one cell along `d` and
/// becomes the new front, and the tail segment is dropped from the back.
pub open spec fn step_body(body: Seq<Segment>, d: Direction) -> Seq<Segment>
    recommends
        body.len() >= 1,
{
    seq![moved(body[0], d)] + body.drop_last()
}

/// The square drawn for segment `s`: the cell scaled by `CELL_SIZE`.
pub open spec fn square_of(s: Segment) -> Square {
    Square {
        x: (s.x * CELL_SIZE as int) as i64,
        y: (s.y * CELL_SIZE as int) as i64,
        side: CELL_SIZE,
    }
}

/// The body after update steps are taken along each heading of `dirs` in
/// turn, starting from `body`.
pub open spec fn run(body: Seq<Segment>, dirs: Seq<Direction>) -> Seq<Segment>
    decreases dirs.len(),
{
    if dirs.len() == 0 {
        body
    } else {
        run(step_body(body, dirs[0]), dirs.drop_first())
    }
}

/// Length invariance: however many update steps are taken, and along
/// whatever headings, the body keeps its segment count.
pub proof fn lemma_length_invariance(body: Seq<Segment>, dirs: Seq<Direction>)
    requires
        body.len() >= 1,
    ensures
        run(body, dirs).len() == body.len(),
    decreases dirs.len(),
{
    if dirs.len() > 0 {
        lemma_length_invariance(step_body(body, dirs[0]), dirs.drop_first());
    }
}

/// No reversal: pressing the key whose direction is the exact opposite of
/// the current heading leaves the heading unchanged, for each of the four
/// opposite pairs.
pub proof fn lemma_no_reversal(d: Direction, k: Key)
    requires
        key_target(k) == Some(opposite(d)),
    ensures
        turn(d, k) == d,
{
}

/// Valid turn accepted: pressing a key whose direction is not the exact
/// opposite of the current heading turns the heading to that direction.
pub proof fn lemma_valid_turn(d: Direction, k: Key, t: Direction)
    requires
        key_target(k) == Some(t),
        t != opposite(d),
    ensures
        turn(d, k) == t,
{
}

/// Unrecognized input ignored: pressing a key that names no direction
/// leaves the heading unchanged.
pub proof fn lemma_unrecognized_key(d: Direction, k: Key)
    requires
        key_target(k) is None,
    ensures
        turn(d, k) == d,
{
}

pub struct Snake {
    pub body: Vec<Segment>,
    pub dir: Direction,
}

impl Snake {
    /// The body is never empty: there is always a head segment to advance.
    pub open spec fn wf(self) -> bool {
        self.body@.len() >= 1
    }

    /// Whether the head can take one step along the current heading without
    /// leaving the coordinate range.
    pub open spec fn can_advance(self) -> bool {
        self.wf() && can_move(self.body@[0], self.dir)
    }

    /// The starting snake: two segments, heading right.
    pub fn new() -> (s: Snake)
        ensures
            s.wf(),
            s.dir == Direction::Right,
            s.body@ =~= seq![Segment { x: 0, y: 0 }, Segment { x: 0, y: 1 }],
    {
        let mut body: Vec<Segment> = Vec::new();
        body.push(Segment { x: 0, y: 0 });
        body.push(Segment { x: 0, y: 1 });
        Snake { body, dir: Direction::Right }
    }

    /// Advance one cell: push the moved head to the front, drop the tail.
    /// The segment count never changes.
    pub fn update(&mut self)
        requires
            old(self).can_advance(),
        ensures
            final(self).wf(),
            final(self).dir == old(self).dir,
            final(self).body@ == step_body(old(self).body@, old(self).dir),
            final(self).body@.len() == old(self).body@.len(),
    {
        let head = self.body[0];
        let new_head = match self.dir {
            Direction::Left => Segment { x: head.x - 1, y: head.y },
            Direction::Right => Segment { x: head.x + 1, y: head.y },
            Direction::Up => Segment { x: head.x, y: head.y - 1 },
            Direction::Down => Segment { x: head.x, y: head.y + 1 },
        };
        self.body.insert(0, new_head);
        let _ = self.body.pop();
    }

    /// Change heading according to the pressed key: unrecognized keys and
    /// the key for the exact opposite of the current heading are ignored.
    /// The body is untouched; the new heading takes effect on the next
    /// `update`.
    pub fn pressed(&mut self, key: Key)
        ensures
            final(self).body == old(self).body,
            final(self).dir == turn(old(self).dir, key),
    {
        let last = self.dir;
        self.dir = match key {
            Key::K => if last != Direction::Down {
                Direction::Up
            } else {
                last
            },
            Key::J => if last != Direction::Up {
                Direction::Down
            } else {
                last
            },
            Key::H => if last != Direction::Right {
                Direction::Left
            } else {
                last
            },
            Key::L => if last != Direction::Left {
                Direction::Right
            } else {
                last
            },
            Key::Other => last,
        };
    }

    /// Compute the squares to draw: one per body segment, in body order,
    /// each the segment's cell scaled by `CELL_SIZE`. Reads the state only;
    /// the caller does the actual drawing.
    pub fn render(&self) -> (squares: Vec<Square>)
        ensures
            squares@.len() == self.body@.len(),
            forall|i: int| 0 <= i < squares@.len() ==> squares@[i] == square_of(self.body@[i]),
    {
        let mut squares: Vec<Square> = Vec::new();
        let mut idx: usize = 0;
        while idx < self.body.len()
            invariant
                idx <= self.body@.len(),
                squares@.len() == idx,
                forall|i: int| 0 <= i < idx ==> squares@[i] == square_of(self.body@[i]),
            decreases self.body@.len() - idx,
        {
            let seg = self.body[idx];
            let x: i64 = (seg.x as i64) * CELL_SIZE;
            let y: i64 = (seg.y as i64) * CELL_SIZE;
            squares.push(Square { x, y, side: CELL_SIZE });
            idx += 1;
        }
        squares
    }
}

} // verus!
