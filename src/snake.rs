use std::collections::VecDeque;
use vstd::prelude::*;

verus! {

/// Edge length of every block, and the distance the head travels per tick.
pub const SNAKE_AND_FOOD_SIZE: u32 = 4;

/// A heading on the board.
#[derive(Debug, Clone, Copy, PartialEq, Eq, Structural)]
pub enum Direction {
    Up,
    Down,
    Left,
    Right,
}

impl Direction {
    /// The heading that points the other way.
    pub open spec fn opposite_spec(self) -> Direction {
        match self {
            Direction::Up => Direction::Down,
            Direction::Down => Direction::Up,
            Direction::Left => Direction::Right,
            Direction::Right => Direction::Left,
        }
    }

    pub fn opposite(&self) -> (r: Direction)
        ensures
            r == self.opposite_spec(),
    {
        match *self {
            Direction::Up => Direction::Down,
            Direction::Down => Direction::Up,
            Direction::Left => Direction::Right,
            Direction::Right => Direction::Left,
        }
    }
}

/// `(x, y)` moved one unit in direction `d`.
pub open spec fn step_from(x: int, y: int, d: Direction) -> (int, int) {
    let s = SNAKE_AND_FOOD_SIZE as int;
    match d {
        Direction::Up => (x, y - s),
        Direction::Down => (x, y + s),
        Direction::Left => (x - s, y),
        Direction::Right => (x + s, y),
    }
}

/// One grid-aligned square of the snake.
#[derive(Clone, Copy, Debug, PartialEq, Eq, Structural)]
pub struct Block {
    pub x: i32,
    pub y: i32,
    pub size: u32,
}

/// The snake: a heading, its blocks from head (front) to tail (back), and the
/// block that the last move dropped from the back.
pub struct Snake {
    pub direction: Direction,
    pub body: VecDeque<Block>,
    pub tail: Option<Block>,
}

impl Snake {
    /// A snake in play has at least a head and one more block.
    pub open spec fn wf(&self) -> bool {
        self.body@.len() >= 2
    }

    pub open spec fn head_spec(&self) -> (int, int) {
        (self.body@[0].x as int, self.body@[0].y as int)
    }

    /// Where the head goes on the next move.
    pub open spec fn next_head_spec(&self) -> (int, int) {
        step_from(self.head_spec().0, self.head_spec().1, self.direction)
    }

    /// The next head position is representable.
    pub open spec fn step_fits(&self) -> bool {
        let s = SNAKE_AND_FOOD_SIZE as int;
        &&& i32::MIN + s <= self.head_spec().0 <= i32::MAX - s
        &&& i32::MIN + s <= self.head_spec().1 <= i32::MAX - s
    }

    /// The body after one move: the new head in front, the old tail gone.
    pub open spec fn moved_body(&self) -> Seq<Block> {
        let (nx, ny) = self.next_head_spec();
        seq![Block { x: nx as i32, y: ny as i32, size: SNAKE_AND_FOOD_SIZE }]
            + self.body@.drop_last()
    }

    /// Some block other than the last one sits at `(x, y)`.
    pub open spec fn overlaps_spec(&self, x: int, y: int) -> bool {
        exists|i: int|
            0 <= i < self.body@.len() - 1 && self.body@[i].x == x && self.body@[i].y == y
    }

    /// A snake of two blocks whose head is at `(x + 2 units, y)`, heading right.
    pub fn new(x: i32, y: i32) -> (r: Snake)
        requires
            x + 2 * SNAKE_AND_FOOD_SIZE <= i32::MAX,
        ensures
            r.wf(),
            r.direction == Direction::Right,
            r.tail is None,
            r.body@ == seq![
                Block { x: (x + 2 * SNAKE_AND_FOOD_SIZE) as i32, y, size: SNAKE_AND_FOOD_SIZE },
                Block { x: (x + SNAKE_AND_FOOD_SIZE) as i32, y, size: SNAKE_AND_FOOD_SIZE },
            ],
    {
        let mut body: VecDeque<Block> = VecDeque::new();
        body.push_back(
            Block { x: x + SNAKE_AND_FOOD_SIZE as i32 * 2, y, size: SNAKE_AND_FOOD_SIZE },
        );
        body.push_back(Block { x: x + SNAKE_AND_FOOD_SIZE as i32, y, size: SNAKE_AND_FOOD_SIZE });
        Snake { direction: Direction::Right, body, tail: None }
    }

    pub fn head_position(&self) -> (r: (i32, i32))
        requires
            self.body@.len() > 0,
        ensures
            r.0 == self.head_spec().0,
            r.1 == self.head_spec().1,
    {
        let head_block = &self.body[0];
        (head_block.x, head_block.y)
    }

    /// Adopts `dir` unless it is `None` or points straight back.
    pub fn change_direction(&mut self, dir: Option<Direction>)
        ensures
            final(self).body@ == old(self).body@,
            final(self).tail == old(self).tail,
            final(self).direction == match dir {
                Some(d) => if d == old(self).direction.opposite_spec() {
                    old(self).direction
                } else {
                    d
                },
                None => old(self).direction,
            },
    {
        if dir == Some(self.head_direction().opposite()) {
            return;
        }
        match dir {
            Some(d) => self.direction = d,
            None => (),
        }
    }

    /// Pushes a new head one unit ahead and drops the last block, which is
    /// kept in `tail`.
    pub fn move_forward(&mut self)
        requires
            old(self).wf(),
            old(self).step_fits(),
        ensures
            final(self).wf(),
            final(self).body@ == old(self).moved_body(),
            final(self).tail == Some(old(self).body@.last()),
            final(self).direction == old(self).direction,
    {
        let (nx, ny) = self.next_head();
        self.body.push_front(Block { x: nx, y: ny, size: SNAKE_AND_FOOD_SIZE });
        let ghost pushed = self.body@;
        let remove_block = self.body.pop_back();
        match remove_block {
            Some(b) => {
                self.tail = Some(b);
            },
            None => {},
        }
        proof {
            assert(pushed.drop_last() =~= old(self).moved_body());
        }
    }

    pub fn head_direction(&self) -> (r: Direction)
        ensures
            r == self.direction,
    {
        self.direction
    }

    pub fn next_head(&self) -> (r: (i32, i32))
        requires
            self.body@.len() > 0,
            self.step_fits(),
        ensures
            r.0 == self.next_head_spec().0,
            r.1 == self.next_head_spec().1,
    {
        let (head_x, head_y) = self.head_position();
        match self.direction {
            Direction::Up => (head_x, head_y - SNAKE_AND_FOOD_SIZE as i32),
            Direction::Down => (head_x, head_y + SNAKE_AND_FOOD_SIZE as i32),
            Direction::Left => (head_x - SNAKE_AND_FOOD_SIZE as i32, head_y),
            Direction::Right => (head_x + SNAKE_AND_FOOD_SIZE as i32, head_y),
        }
    }

    /// Appends the block that the last move dropped.
    pub fn restore_tail(&mut self)
        requires
            old(self).tail is Some,
        ensures
            final(self).body@ == old(self).body@.push(old(self).tail.unwrap()),
            final(self).tail == old(self).tail,
            final(self).direction == old(self).direction,
    {
        match self.tail {
            Some(blk) => self.body.push_back(blk),
            None => {},
        }
    }

    /// Whether a block other than the last one sits at `(x, y)`.
    pub fn overlap_tail(&self, x: i32, y: i32) -> (r: bool)
        requires
            self.wf(),
        ensures
            r == self.overlaps_spec(x as int, y as int),
    {
        let n = self.body.len();
        let mut i: usize = 0;
        while i < n - 1
            invariant
                n == self.body@.len(),
                n >= 2,
                i <= n - 1,
                forall|j: int|
                    0 <= j < i ==> !(self.body@[j].x == x && self.body@[j].y == y),
            decreases n - 1 - i,
        {
            let block = &self.body[i];
            if x == block.x && y == block.y {
                return true;
            }
            i += 1;
        }
        false
    }
}

/// Moving and then restoring the dropped block grows the body by exactly one:
/// the new head is added in front and nothing is lost.
pub proof fn lemma_move_then_restore(s0: Snake, s1: Snake, s2: Snake)
    requires
        s0.wf(),
        s1.body@ == s0.moved_body(),
        s1.tail == Some(s0.body@.last()),
        s2.body@ == s1.body@.push(s1.tail.unwrap()),
    ensures
        s2.body@.len() == s0.body@.len() + 1,
        s2.body@ == seq![s1.body@[0]] + s0.body@,
{
    assert(s2.body@ =~= seq![s1.body@[0]] + s0.body@);
}

/// The last block never counts as an overlap when no other block shares its
/// cell, and every other block always does.
pub proof fn lemma_overlap_excludes_tail(s: Snake)
    requires
        s.wf(),
        forall|i: int|
            0 <= i < s.body@.len() - 1 ==> !(s.body@[i].x == s.body@.last().x && s.body@[i].y
                == s.body@.last().y),
    ensures
        !s.overlaps_spec(s.body@.last().x as int, s.body@.last().y as int),
        forall|i: int|
            0 <= i < s.body@.len() - 1 ==> #[trigger] s.overlaps_spec(
                s.body@[i].x as int,
                s.body@[i].y as int,
            ),
{
    assert forall|i: int| 0 <= i < s.body@.len() - 1 implies #[trigger] s.overlaps_spec(
        s.body@[i].x as int,
        s.body@[i].y as int,
    ) by {
        assert(s.body@[i].x == s.body@[i].x && s.body@[i].y == s.body@[i].y);
    }
}

} // verus!
