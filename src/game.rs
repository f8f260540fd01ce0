use crate::snake::{Block, Direction, Snake, SNAKE_AND_FOOD_SIZE};
use vstd::prelude::*;

verus! {

/// Start position handed to `Snake::new`.
pub const SNAKE_DEFAULT_X: i32 = 24;

pub const SNAKE_DEFAULT_Y: i32 = 20;

/// Points for each food eaten.
pub const SCORE_INCREMENT: u32 = 4;

/// Random draws tried before food placement falls back to scanning the grid.
pub const MAX_RANDOM_DRAWS: u32 = 64;

#[verifier::external_type_specification]
#[verifier::external_body]
pub struct ExRng(fastrand::Rng);

/// Relies on fastrand::Rng::usize: a value drawn from the range `1..end`
/// (it panics on an empty range, hence `end >= 2`).
#[verifier::external_body]
fn draw_below(rng: &mut fastrand::Rng, end: u32) -> (r: usize)
    requires
        end >= 2,
    ensures
        1 <= r < end,
{
    rng.usize(1..end as usize)
}

/// The play field.
#[derive(Clone, Copy, Debug, PartialEq, Eq, Structural)]
pub struct Board {
    pub width: u32,
    pub height: u32,
}

/// Position of the food item.
#[derive(Clone, Copy, Debug, PartialEq, Eq, Structural)]
pub struct Food {
    pub x: i32,
    pub y: i32,
    pub size: u32,
}

pub open spec fn default_food() -> Food {
    Food { x: 32, y: 16, size: SNAKE_AND_FOOD_SIZE }
}

impl Default for Food {
    fn default() -> (r: Food)
        ensures
            r == default_food(),
    {
        Food { x: 32, y: 16, size: SNAKE_AND_FOOD_SIZE }
    }
}

/// A board large enough for one food cell inside its margins, with
/// coordinates that fit in `i32`.
pub open spec fn board_ok(width: int, height: int) -> bool {
    let s = SNAKE_AND_FOOD_SIZE as int;
    &&& 3 * s <= width <= i32::MAX
    &&& 3 * s <= height <= i32::MAX
}

/// Whether a board of this size can be played on.
pub fn board_fits(width: u32, height: u32) -> (r: bool)
    ensures
        r == board_ok(width as int, height as int),
{
    let min = 3 * SNAKE_AND_FOOD_SIZE;
    let max = i32::MAX as u32;
    min <= width && width <= max && min <= height && height <= max
}

/// Coordinates that a block of the snake can hold during play.
pub open spec fn block_ok(b: Block) -> bool {
    let s = SNAKE_AND_FOOD_SIZE as int;
    &&& 0 < b.x < i32::MAX - s
    &&& 0 < b.y < i32::MAX - s
}

/// The largest grid line that food may take along an axis of length
/// `extent`: the last multiple of the unit that keeps one unit of margin
/// before the edge.
pub open spec fn food_cap_spec(extent: int) -> int {
    let s = SNAKE_AND_FOOD_SIZE as int;
    (extent / s - 2) * s
}

/// A drawn value turned into a food coordinate along an axis of length
/// `extent`: rounded down to the unit, then kept within
/// `[unit, food_cap_spec(extent)]`.
pub open spec fn food_coord_spec(raw: int, extent: int) -> int {
    let s = SNAKE_AND_FOOD_SIZE as int;
    let v = raw - raw % s;
    if v < s {
        s
    } else if v > food_cap_spec(extent) {
        food_cap_spec(extent)
    } else {
        v
    }
}

pub fn food_coord(raw: usize, extent: u32) -> (r: i32)
    requires
        raw < extent,
        3 * SNAKE_AND_FOOD_SIZE <= extent <= i32::MAX,
    ensures
        r == food_coord_spec(raw as int, extent as int),
        r as int % SNAKE_AND_FOOD_SIZE as int == 0,
        SNAKE_AND_FOOD_SIZE <= r <= extent - 2 * SNAKE_AND_FOOD_SIZE,
{
    let unit = SNAKE_AND_FOOD_SIZE as usize;
    proof {
        assert(unit == 4);
        assert(raw % 4 <= raw);
        assert((extent / 4 - 2) * 4 <= extent - 8);
        assert(((extent / 4 - 2) * 4) % 4 == 0);
        assert((raw - raw % 4) % 4 == 0);
    }
    let rounded: usize = raw - raw % unit;
    let cap = ((extent / SNAKE_AND_FOOD_SIZE - 2) * SNAKE_AND_FOOD_SIZE) as usize;
    let v = if rounded < unit {
        unit
    } else if rounded > cap {
        cap
    } else {
        rounded
    };
    v as i32
}

/// Which direction the buttons ask for: the first pressed of up, down,
/// left, right.
pub open spec fn pressed_spec(up: bool, down: bool, left: bool, right: bool) -> Option<Direction> {
    if up {
        Some(Direction::Up)
    } else if down {
        Some(Direction::Down)
    } else if left {
        Some(Direction::Left)
    } else if right {
        Some(Direction::Right)
    } else {
        None
    }
}

/// The board, the snake, the food, the score and whether this life is over.
pub struct Game {
    pub board: Board,
    pub snake: Snake,
    pub game_over: bool,
    pub food_exists: bool,
    pub food: Food,
    pub score: u32,
}

/// `a` and `b` hold the same state.
pub open spec fn same_state(a: &Game, b: &Game) -> bool {
    &&& b.board == a.board
    &&& b.snake.body@ == a.snake.body@
    &&& b.snake.direction == a.snake.direction
    &&& b.snake.tail == a.snake.tail
    &&& b.game_over == a.game_over
    &&& b.food_exists == a.food_exists
    &&& b.food == a.food
    &&& b.score == a.score
}

impl Game {
    pub open spec fn wf(&self) -> bool {
        &&& board_ok(self.board.width as int, self.board.height as int)
        &&& self.snake.wf()
        &&& self.food.size == SNAKE_AND_FOOD_SIZE
        &&& forall|i: int| 0 <= i < self.snake.body@.len() ==> block_ok(#[trigger] self.snake.body@[i])
    }

    /// The state of a new life on this board.
    pub open spec fn is_initial(&self) -> bool {
        let s = SNAKE_AND_FOOD_SIZE;
        &&& self.snake.direction == Direction::Right
        &&& self.snake.tail is None
        &&& self.snake.body@ == seq![
            Block { x: (SNAKE_DEFAULT_X + 2 * s) as i32, y: SNAKE_DEFAULT_Y, size: s },
            Block { x: (SNAKE_DEFAULT_X + s) as i32, y: SNAKE_DEFAULT_Y, size: s },
        ]
        &&& self.food == default_food()
        &&& self.food_exists
        &&& !self.game_over
        &&& self.score == 0
    }

    /// The next head stays clear of the body and of the margin along every edge.
    pub open spec fn alive_spec(&self) -> bool {
        let (nx, ny) = self.snake.next_head_spec();
        let s = SNAKE_AND_FOOD_SIZE as int;
        &&& !self.snake.overlaps_spec(nx, ny)
        &&& nx > 0
        &&& ny > 0
        &&& nx < self.board.width - s
        &&& ny < self.board.height - s
    }

    /// The next move puts the head on the food.
    pub open spec fn eats_spec(&self) -> bool {
        &&& self.food_exists
        &&& self.snake.next_head_spec() == (self.food.x as int, self.food.y as int)
    }

    /// `(x, y)` lies within the margins where food may go.
    pub open spec fn in_area(&self, x: int, y: int) -> bool {
        let s = SNAKE_AND_FOOD_SIZE as int;
        &&& s <= x <= self.board.width - 2 * s
        &&& s <= y <= self.board.height - 2 * s
    }

    /// A grid-aligned cell within the margins.
    pub open spec fn grid_cell(&self, x: int, y: int) -> bool {
        let s = SNAKE_AND_FOOD_SIZE as int;
        &&& x % s == 0
        &&& y % s == 0
        &&& self.in_area(x, y)
    }

    /// Food may be placed at `(x, y)`.
    pub open spec fn food_free(&self, x: int, y: int) -> bool {
        &&& self.in_area(x, y)
        &&& !self.snake.overlaps_spec(x, y)
    }

    /// Only the food changed.
    pub open spec fn same_but_food(&self, next: &Game) -> bool {
        &&& next.board == self.board
        &&& next.snake.body@ == self.snake.body@
        &&& next.snake.direction == self.snake.direction
        &&& next.snake.tail == self.snake.tail
        &&& next.game_over == self.game_over
        &&& next.score == self.score
    }

    /// `next` is `self` after food placement: either food was put on a free
    /// grid cell, or no grid cell was free and nothing changed.
    pub open spec fn fed(&self, next: &Game) -> bool {
        &&& self.same_but_food(next)
        &&& ({
            ||| next.food_exists && next.food.size == SNAKE_AND_FOOD_SIZE && self.grid_cell(
                next.food.x as int,
                next.food.y as int,
            ) && self.food_free(next.food.x as int, next.food.y as int)
            ||| next.food_exists == self.food_exists && next.food == self.food && forall|
                x: int,
                y: int,
            | #[trigger] self.grid_cell(x, y) ==> !self.food_free(x, y)
        })
    }

    /// `next` is `self` after one move of the snake, or after its death.
    pub open spec fn stepped(&self, next: &Game) -> bool {
        &&& next.board == self.board
        &&& next.food == self.food
        &&& next.snake.direction == self.snake.direction
        &&& if self.alive_spec() {
            &&& next.game_over == self.game_over
            &&& next.snake.tail == Some(self.snake.body@.last())
            &&& if self.eats_spec() {
                &&& next.snake.body@ == self.snake.moved_body().push(self.snake.body@.last())
                &&& !next.food_exists
                &&& next.score == self.score.saturating_add(SCORE_INCREMENT)
            } else {
                &&& next.snake.body@ == self.snake.moved_body()
                &&& next.food_exists == self.food_exists
                &&& next.score == self.score
            }
        } else {
            &&& next.game_over
            &&& next.snake.body@ == self.snake.body@
            &&& next.snake.tail == self.snake.tail
            &&& next.food_exists == self.food_exists
            &&& next.score == self.score
        }
    }

    /// What one `update` does: nothing once the life is over; else food is
    /// placed if absent, then the snake moves or dies.
    pub open spec fn update_outcome(&self, next: &Game) -> bool {
        if self.game_over {
            same_state(self, next)
        } else if self.food_exists {
            self.stepped(next)
        } else {
            exists|mid: Game| #[trigger] self.fed(&mid) && mid.stepped(next)
        }
    }

    pub fn new(width: u32, height: u32) -> (r: Game)
        requires
            board_ok(width as int, height as int),
        ensures
            r.wf(),
            r.is_initial(),
            r.board == (Board { width, height }),
    {
        Game {
            score: 0,
            food: Food::default(),
            food_exists: true,
            game_over: false,
            board: Board { width, height },
            snake: Snake::new(SNAKE_DEFAULT_X, SNAKE_DEFAULT_Y),
        }
    }
    /// Whether the next move keeps the snake alive.
    pub fn check_if_snake_alive(&self) -> (r: bool)
        requires
            self.wf(),
        ensures
            r == self.alive_spec(),
    {
        let (next_x, next_y) = self.snake.next_head();
        if self.snake.overlap_tail(next_x, next_y) {
            return false;
        }
        next_x > 0 && next_y > 0 && next_x < self.board.width as i32 - SNAKE_AND_FOOD_SIZE as i32
            && next_y < self.board.height as i32 - SNAKE_AND_FOOD_SIZE as i32
    }

    /// Eats the food if the head is on it: the food is gone, the snake grows
    /// back its last dropped block and the score goes up.
    fn check_eating(&mut self)
        requires
            old(self).snake.tail is Some,
            old(self).snake.body@.len() > 0,
        ensures
            final(self).board == old(self).board,
            final(self).food == old(self).food,
            final(self).game_over == old(self).game_over,
            final(self).snake.direction == old(self).snake.direction,
            final(self).snake.tail == old(self).snake.tail,
            if old(self).food_exists && old(self).snake.head_spec() == (
                old(self).food.x as int,
                old(self).food.y as int,
            ) {
                &&& final(self).snake.body@ == old(self).snake.body@.push(
                    old(self).snake.tail.unwrap(),
                )
                &&& !final(self).food_exists
                &&& final(self).score == old(self).score.saturating_add(SCORE_INCREMENT)
            } else {
                &&& final(self).snake.body@ == old(self).snake.body@
                &&& final(self).food_exists == old(self).food_exists
                &&& final(self).score == old(self).score
            },
    {
        let (head_x, head_y) = self.snake.head_position();
        if self.food_exists && head_x == self.food.x && head_y == self.food.y {
            self.food_exists = false;
            self.snake.restore_tail();
            self.score = self.score.saturating_add(SCORE_INCREMENT);
        }
    }

    /// Moves the snake if the move is safe, else ends the life.
    pub fn update_snake(&mut self)
        requires
            old(self).wf(),
        ensures
            final(self).wf(),
            old(self).stepped(final(self)),
    {
        if self.check_if_snake_alive() {
            let ghost before = self.snake.body@;
            self.snake.move_forward();
            self.check_eating();
            proof {
                let b = self.snake.body@;
                assert forall|i: int| 0 <= i < b.len() implies block_ok(#[trigger] b[i]) by {
                    if i > 0 && i < before.len() {
                        assert(b[i] == before[i - 1]);
                    } else if i >= before.len() {
                        assert(b[i] == before.last());
                    }
                }
            }
        } else {
            self.game_over = true;
        }
    }

    /// Puts the food at the cell that the drawn values `raw_x`, `raw_y` give,
    /// if that cell is free; tells whether it did.
    pub fn try_place_food(&mut self, raw_x: usize, raw_y: usize) -> (r: bool)
        requires
            old(self).wf(),
            raw_x < old(self).board.width,
            raw_y < old(self).board.height,
        ensures
            final(self).wf(),
            old(self).same_but_food(final(self)),
            ({
                let x = food_coord_spec(raw_x as int, old(self).board.width as int);
                let y = food_coord_spec(raw_y as int, old(self).board.height as int);
                if old(self).food_free(x, y) {
                    &&& r
                    &&& final(self).food_exists
                    &&& final(self).food == (Food { x: x as i32, y: y as i32, size: SNAKE_AND_FOOD_SIZE })
                } else {
                    &&& !r
                    &&& final(self).food_exists == old(self).food_exists
                    &&& final(self).food == old(self).food
                }
            }),
    {
        let x = food_coord(raw_x, self.board.width);
        let y = food_coord(raw_y, self.board.height);
        if self.snake.overlap_tail(x, y) {
            return false;
        }
        self.food = Food { x, y, size: SNAKE_AND_FOOD_SIZE };
        self.food_exists = true;
        true
    }

    /// The first free grid cell, scanning columns from the left and each
    /// column from the top.
    pub fn first_free_cell(&self) -> (r: Option<(i32, i32)>)
        requires
            self.wf(),
        ensures
            match r {
                Some((x, y)) => {
                    &&& self.grid_cell(x as int, y as int)
                    &&& self.food_free(x as int, y as int)
                    &&& forall|cx: int, cy: int| #[trigger]
                        self.grid_cell(cx, cy) && (cx < x || (cx == x && cy < y))
                            ==> !self.food_free(cx, cy)
                },
                None => forall|x: int, y: int| #[trigger]
                    self.grid_cell(x, y) ==> !self.food_free(x, y),
            },
    {
        let unit = SNAKE_AND_FOOD_SIZE as i32;
        let x_cap = (self.board.width - 2 * SNAKE_AND_FOOD_SIZE) as i32;
        let y_cap = (self.board.height - 2 * SNAKE_AND_FOOD_SIZE) as i32;
        let mut x: i32 = unit;
        while x <= x_cap
            invariant
                self.wf(),
                unit == SNAKE_AND_FOOD_SIZE,
                x_cap == self.board.width - 2 * SNAKE_AND_FOOD_SIZE,
                y_cap == self.board.height - 2 * SNAKE_AND_FOOD_SIZE,
                unit <= x <= x_cap + unit,
                x % unit == 0,
                forall|cx: int, cy: int|
                    #![trigger self.grid_cell(cx, cy)]
                    cx < x && self.grid_cell(cx, cy) ==> !self.food_free(cx, cy),
            decreases x_cap + unit - x,
        {
            let mut y: i32 = unit;
            while y <= y_cap
                invariant
                    self.wf(),
                    unit == SNAKE_AND_FOOD_SIZE,
                    x_cap == self.board.width - 2 * SNAKE_AND_FOOD_SIZE,
                    y_cap == self.board.height - 2 * SNAKE_AND_FOOD_SIZE,
                    unit <= x <= x_cap,
                    x % unit == 0,
                    unit <= y <= y_cap + unit,
                    y % unit == 0,
                    forall|cx: int, cy: int|
                        #![trigger self.grid_cell(cx, cy)]
                        cx < x && self.grid_cell(cx, cy) ==> !self.food_free(cx, cy),
                    forall|cy: int|
                        #![trigger self.grid_cell(x as int, cy)]
                        cy < y && self.grid_cell(x as int, cy) ==> !self.food_free(x as int, cy),
                decreases y_cap + unit - y,
            {
                if !self.snake.overlap_tail(x, y) {
                    return Some((x, y));
                }
                y = y + unit;
            }
            proof {
                assert forall|cx: int, cy: int|
                    #![trigger self.grid_cell(cx, cy)]
                    cx < x + unit && self.grid_cell(cx, cy) implies !self.food_free(cx, cy) by {
                    if cx >= x {
                        assert(cx == x);
                    }
                }
            }
            x = x + unit;
        }
        None
    }

    /// Places the food on a free cell: by random draws first, then, if none
    /// of them hit a free cell, on the first free grid cell.
    pub fn add_food(&mut self, rng: fastrand::Rng)
        requires
            old(self).wf(),
        ensures
            final(self).wf(),
            old(self).fed(final(self)),
    {
        let mut rng = rng;
        let mut placed = false;
        let mut tries: u32 = 0;
        while tries < MAX_RANDOM_DRAWS && !placed
            invariant
                self.wf(),
                old(self).same_but_food(self),
                tries <= MAX_RANDOM_DRAWS,
                placed ==> self.food_exists && self.food.size == SNAKE_AND_FOOD_SIZE
                    && old(self).grid_cell(self.food.x as int, self.food.y as int)
                    && old(self).food_free(self.food.x as int, self.food.y as int),
                !placed ==> self.food_exists == old(self).food_exists && self.food == old(self).food,
            decreases MAX_RANDOM_DRAWS - tries,
        {
            let raw_x = draw_below(&mut rng, self.board.width);
            let raw_y = draw_below(&mut rng, self.board.height);
            placed = self.try_place_food(raw_x, raw_y);
            tries += 1;
        }
        if !placed {
            match self.first_free_cell() {
                Some((x, y)) => {
                    proof {
                        assert(self.snake.overlaps_spec(x as int, y as int)
                            == old(self).snake.overlaps_spec(x as int, y as int));
                    }
                    self.food = Food { x, y, size: SNAKE_AND_FOOD_SIZE };
                    self.food_exists = true;
                },
                None => {
                    proof {
                        assert forall|cx: int, cy: int| #[trigger]
                            old(self).grid_cell(cx, cy) implies !old(self).food_free(cx, cy) by {
                            assert(self.grid_cell(cx, cy));
                            assert(self.snake.overlaps_spec(cx, cy)
                                == old(self).snake.overlaps_spec(cx, cy));
                        }
                    }
                },
            }
        }
    }

    /// One tick: nothing once the life is over; else food is placed if
    /// absent, then the snake moves or dies.
    pub fn update(&mut self, rng: fastrand::Rng)
        requires
            old(self).wf(),
        ensures
            final(self).wf(),
            old(self).update_outcome(final(self)),
    {
        if self.game_over {
            return;
        }
        if !self.food_exists {
            self.add_food(rng);
            let ghost mid = *self;
            self.update_snake();
            proof {
                assert(old(self).fed(&mid) && mid.stepped(self));
            }
        } else {
            self.update_snake();
        }
    }

    /// Acts on the buttons: after a game over, up or right starts a new
    /// life; otherwise the first pressed of up, down, left, right turns the
    /// snake unless it points straight back.
    pub fn handle_input(&mut self, up: bool, down: bool, left: bool, right: bool)
        requires
            old(self).wf(),
        ensures
            final(self).wf(),
            if old(self).game_over {
                if up || right {
                    final(self).is_initial() && final(self).board == old(self).board
                } else {
                    same_state(old(self), final(self))
                }
            } else {
                &&& final(self).board == old(self).board
                &&& final(self).snake.body@ == old(self).snake.body@
                &&& final(self).snake.tail == old(self).snake.tail
                &&& final(self).game_over == old(self).game_over
                &&& final(self).food_exists == old(self).food_exists
                &&& final(self).food == old(self).food
                &&& final(self).score == old(self).score
                &&& final(self).snake.direction == match pressed_spec(up, down, left, right) {
                    Some(d) => if d == old(self).snake.direction.opposite_spec() {
                        old(self).snake.direction
                    } else {
                        d
                    },
                    None => old(self).snake.direction,
                }
            },
    {
        if self.game_over {
            if up || right {
                self.restart();
            }
            return;
        }
        let direction = if up {
            Direction::Up
        } else if down {
            Direction::Down
        } else if left {
            Direction::Left
        } else if right {
            Direction::Right
        } else {
            return;
        };
        if direction == self.snake.head_direction().opposite() {
            return;
        }
        self.snake.change_direction(Some(direction));
    }

    /// Starts a new life on the same board.
    pub fn restart(&mut self)
        requires
            board_ok(old(self).board.width as int, old(self).board.height as int),
        ensures
            final(self).wf(),
            final(self).is_initial(),
            final(self).board == old(self).board,
    {
        self.snake = Snake::new(SNAKE_DEFAULT_X, SNAKE_DEFAULT_Y);
        self.food_exists = true;
        self.game_over = false;
        self.food = Food::default();
        self.score = 0;
    }
}

/// While the life lasts, one update keeps the body length or adds one block,
/// and it adds one only when the food was eaten: the food is then gone and
/// the score went up. Unless the score is already at its maximum, the body
/// grows exactly when the score changes.
pub proof fn lemma_growth_per_update(g: Game, next: Game)
    requires
        g.wf(),
        !g.game_over,
        g.update_outcome(&next),
    ensures
        next.snake.body@.len() == g.snake.body@.len() || (next.snake.body@.len()
            == g.snake.body@.len() + 1 && !next.food_exists && next.score
            == g.score.saturating_add(SCORE_INCREMENT)),
        g.score < u32::MAX ==> (next.snake.body@.len() == g.snake.body@.len() + 1 <==> next.score
            != g.score),
{
    if !g.food_exists {
        let mid = choose|mid: Game| #[trigger] g.fed(&mid) && mid.stepped(&next);
        assert(mid.snake.body@ == g.snake.body@);
        assert(mid.score == g.score);
    }
}

/// Once the life is over, an update changes nothing, and the life stays over,
/// so any number of further updates change nothing either.
pub proof fn lemma_update_frozen(g: Game, next: Game)
    requires
        g.game_over,
        g.update_outcome(&next),
    ensures
        same_state(&g, &next),
        next.game_over,
{
}

} // verus!
