//! The world state machine: the snake, the reward cell, the score and the
//! game status, advanced one tick at a time.

use vstd::prelude::*;

verus! {

use crate::grid::Direction;
use crate::grid::next_cell;
use crate::grid::lemma_cell_coords;
use crate::grid::lemma_next_cell_on_grid;
use crate::grid::row_of;
use crate::rng::draw_uniform;
use vstd::arithmetic::mul::lemma_mul_nonnegative;
use vstd::pervasive::VecAdditionalExecFns;
use vstd::set_lib::set_int_range;
use vstd::set_lib::lemma_int_range;
use vstd::set_lib::lemma_len_subset;

/// Whether a game is won, lost, or still in progress.
#[derive(Clone, Copy)]
pub enum GameStatus {
    Won,
    Lost,
    Played,
}

/// The snake: its body as cell indices with the head first, its current
/// heading, and an optional next head recorded by a direction change and
/// consumed by the next tick.
struct Snake {
    body: Vec<usize>,
    direction: Direction,
    next_cell: Option<usize>,
}

/// The playfield: grid dimensions, the snake, the reward cell, the score
/// and the game status (absent until the game is started).
pub struct World {
    width: usize,
    size: usize,
    snake: Snake,
    reward_cell: usize,
    state: Option<GameStatus>,
    points: usize,
}

impl World {
    /// Width of the grid, in cells per row.
    pub closed spec fn grid_width(self) -> usize {
        self.width
    }

    /// Total number of cells of the grid.
    pub closed spec fn grid_size(self) -> usize {
        self.size
    }

    /// The snake's occupied cells, head first.
    pub closed spec fn snake_body(self) -> Seq<usize> {
        self.snake.body@
    }

    /// The cell under the snake's head.
    pub open spec fn snake_head(self) -> usize {
        self.snake_body()[0]
    }

    /// The snake's current heading.
    pub closed spec fn snake_heading(self) -> Direction {
        self.snake.direction
    }

    /// The next head recorded by an accepted direction change, if any.
    pub closed spec fn pending_cell(self) -> Option<usize> {
        self.snake.next_cell
    }

    /// The current game status; `None` until the game is started.
    pub closed spec fn status(self) -> Option<GameStatus> {
        self.state
    }

    /// The current reward cell.
    pub closed spec fn reward(self) -> usize {
        self.reward_cell
    }

    /// The number of reward cells consumed so far.
    pub closed spec fn score(self) -> usize {
        self.points
    }

    /// Well-formedness of a world: the grid is square and nonempty, every
    /// occupied cell and any pending head lie on the grid, the score stays
    /// below the snake's length, a game still in progress has room left to
    /// grow, and the reward cell lies on the grid until the game is won,
    /// when it holds the out-of-range sentinel.
    pub closed spec fn wf(self) -> bool {
        &&& 1 <= self.width
        &&& self.size == self.width * self.width
        &&& self.size < usize::MAX
        &&& 1 <= self.snake.body@.len() <= self.size
        &&& forall|i: int|
            0 <= i < self.snake.body@.len() ==> (#[trigger] self.snake.body@[i]) < self.size
        &&& match self.snake.next_cell {
            Some(c) => c < self.size,
            None => true,
        }
        &&& self.points < self.snake.body@.len()
        &&& self.state == Some(GameStatus::Won) ==> self.reward_cell == usize::MAX
            && self.snake.body@.len() == self.size
        &&& self.state != Some(GameStatus::Won) ==> self.reward_cell < self.size
        &&& self.state is None || self.state == Some(GameStatus::Played)
            ==> self.snake.body@.len() < self.size
    }
}

/// Whether `cell` occurs in the body.
fn contains_cell(body: &Vec<usize>, cell: usize) -> (r: bool)
    ensures
        r == body@.contains(cell),
{
    let n = body.len();
    let mut i: usize = 0;
    while i < n
        invariant
            i <= n,
            n == body@.len(),
            forall|j: int| 0 <= j < i ==> (#[trigger] body@[j]) != cell,
        decreases n - i,
    {
        if body[i] == cell {
            assert(body@.contains(cell));
            return true;
        }
        i += 1;
    }
    assert(!body@.contains(cell));
    false
}

/// The lowest cell index not occupied by the body.  The body covers fewer
/// cells than the grid has, so such a cell exists.
fn first_free_cell(size: usize, snake_body: &Vec<usize>) -> (r: usize)
    requires
        snake_body@.len() < size,
    ensures
        r < size,
        !snake_body@.contains(r),
{
    let mut i: usize = 0;
    while i < size
        invariant
            i <= size,
            forall|j: usize| j < i ==> snake_body@.contains(j),
        decreases size - i,
    {
        if !contains_cell(snake_body, i) {
            return i;
        }
        i += 1;
    }
    proof {
        let occupied = snake_body@.map_values(|c: usize| c as int);
        assert forall|j: int| 0 <= j < size as int implies occupied.to_set().contains(j) by {
            assert(snake_body@.contains(j as usize));
            let k = choose|k: int| 0 <= k < snake_body@.len() && snake_body@[k] == j as usize;
            assert(occupied[k] == j);
        }
        assert(set_int_range(0, size as int).subset_of(occupied.to_set()));
        lemma_int_range(0, size as int);
        occupied.lemma_cardinality_of_set();
        lemma_len_subset(set_int_range(0, size as int), occupied.to_set());
    }
    vstd::pervasive::unreached()
}

/// How many random draws reward placement makes before it falls back to
/// a deterministic scan of the board.
const MAX_REWARD_DRAWS: usize = 128;

impl Snake {
    /// Spawns a snake of `size` segments whose head sits at `spawn_index`
    /// and whose tail trails toward lower indices, heading Right.
    fn new(spawn_index: usize, size: usize) -> (s: Snake)
        requires
            1 <= size,
            size <= spawn_index + 1,
        ensures
            s.body@.len() == size,
            forall|i: int| 0 <= i < size ==> (#[trigger] s.body@[i]) == spawn_index - i,
            s.direction == Direction::Right,
            s.next_cell is None,
    {
        let mut body: Vec<usize> = Vec::new();
        let mut i: usize = 0;
        while i < size
            invariant
                i <= size,
                size <= spawn_index + 1,
                body@.len() == i,
                forall|j: int| 0 <= j < i ==> (#[trigger] body@[j]) == spawn_index - j,
            decreases size - i,
        {
            body.push(spawn_index - i);
            i += 1;
        }
        Snake { body, direction: Direction::Right, next_cell: None }
    }
}

impl World {
    /// Draws random cells until one misses the snake's body; after
    /// `MAX_REWARD_DRAWS` occupied draws it settles for the lowest free
    /// cell, so that placement terminates on any board with room left.
    fn generate_reward_cell(size: usize, snake_body: &Vec<usize>) -> (r: usize)
        requires
            snake_body@.len() < size,
        ensures
            r < size,
            !snake_body@.contains(r),
    {
        let mut attempts: usize = MAX_REWARD_DRAWS;
        while attempts > 0
            invariant
                snake_body@.len() < size,
            decreases attempts,
        {
            let reward_cell = draw_uniform(size);
            if !contains_cell(snake_body, reward_cell) {
                return reward_cell;
            }
            attempts -= 1;
        }
        first_free_cell(size, snake_body)
    }

    /// Builds a world of `width * width` cells holding a freshly spawned
    /// snake of `snake_size` segments with its head at `snake_start_index`,
    /// a reward cell off the snake's body, no points, and no game status.
    pub fn new(width: usize, snake_start_index: usize, snake_size: usize) -> (w: World)
        requires
            1 <= width,
            (width as int) * (width as int) < usize::MAX as int,
            1 <= snake_size,
            snake_size <= snake_start_index + 1,
            (snake_start_index as int) < (width as int) * (width as int),
            (snake_size as int) < (width as int) * (width as int),
        ensures
            w.wf(),
            w.grid_width() == width,
            w.grid_size() == width * width,
            w.snake_body().len() == snake_size,
            forall|i: int|
                0 <= i < snake_size ==> (#[trigger] w.snake_body()[i]) == snake_start_index - i,
            w.snake_heading() == Direction::Right,
            w.pending_cell() is None,
            w.status() is None,
            w.score() == 0,
            w.reward() < w.grid_size(),
            !w.snake_body().contains(w.reward()),
    {
        let size = width * width;
        let snake = Snake::new(snake_start_index, snake_size);
        let reward_cell = World::generate_reward_cell(size, &snake.body);
        World { width, size, snake, reward_cell, state: None, points: 0 }
    }

    /// The cell the snake's head would reach by one move in `direction`,
    /// with toroidal wrap-around.
    pub fn gen_next_snake_cell(&self, direction: &Direction) -> (r: usize)
        requires
            self.wf(),
        ensures
            r as int == next_cell(self.grid_width() as int, self.snake_head() as int, *direction),
            r < self.grid_size(),
    {
        let snake_idx = self.snake.body[0];
        let row = snake_idx / self.width;
        let col = snake_idx % self.width;
        proof {
            lemma_cell_coords(self.width as int, snake_idx as int);
            lemma_next_cell_on_grid(self.width as int, snake_idx as int, *direction);
            lemma_mul_nonnegative(row_of(self.width as int, snake_idx as int), self.width as int);
            assert(self.width as int <= (self.width as int) * (self.width as int))
                by (nonlinear_arith)
                requires 1 <= self.width as int;
            let w: int = self.width as int;
            assert((w - 1) * w == w * w - w) by (nonlinear_arith);
        }
        match direction {
            Direction::Right => if col == self.width - 1 {
                snake_idx - col
            } else {
                snake_idx + 1
            },
            Direction::Left => if col == 0 {
                snake_idx + (self.width - 1)
            } else {
                snake_idx - 1
            },
            Direction::Up => if row == 0 {
                snake_idx + (self.size - self.width)
            } else {
                snake_idx - self.width
            },
            Direction::Down => if row == self.width - 1 {
                col
            } else {
                snake_idx + self.width
            },
        }
    }

    /// The head cell the next tick will move to: the pending cell recorded
    /// by an accepted direction change if one is set, else one move in the
    /// current heading.
    pub open spec fn step_target(self) -> usize {
        match self.pending_cell() {
            Some(c) => c,
            None => next_cell(
                self.grid_width() as int,
                self.snake_head() as int,
                self.snake_heading(),
            ) as usize,
        }
    }

    /// Adopts `snake_direction` and records the head cell the next tick
    /// will move to — unless that cell is the snake's own neck (the second
    /// body segment): a direct reversal is rejected and the call changes
    /// nothing.
    pub fn set_snake_direction(&mut self, snake_direction: Direction)
        requires
            old(self).wf(),
            old(self).snake_body().len() >= 2,
        ensures
            final(self).wf(),
            ({
                let cand = next_cell(
                    old(self).grid_width() as int,
                    old(self).snake_head() as int,
                    snake_direction,
                );
                if cand == old(self).snake_body()[1] as int {
                    unchanged(*old(self), *final(self))
                } else {
                    &&& final(self).pending_cell() == (Some(cand as usize))
                    &&& final(self).snake_heading() == snake_direction
                    &&& final(self).snake_body() == old(self).snake_body()
                    &&& final(self).status() == old(self).status()
                    &&& final(self).reward() == old(self).reward()
                    &&& final(self).score() == old(self).score()
                    &&& final(self).grid_width() == old(self).grid_width()
                    &&& final(self).grid_size() == old(self).grid_size()
                }
            }),
    {
        let next_cell_idx = self.gen_next_snake_cell(&snake_direction);
        if self.snake.body[1] == next_cell_idx {
            return;
        }
        self.snake.next_cell = Some(next_cell_idx);
        self.snake.direction = snake_direction;
    }
}

/// Nothing observable about the world differs between `pre` and `post`.
pub open spec fn unchanged(pre: World, post: World) -> bool {
    &&& post.grid_width() == pre.grid_width()
    &&& post.grid_size() == pre.grid_size()
    &&& post.snake_body() == pre.snake_body()
    &&& post.snake_heading() == pre.snake_heading()
    &&& post.pending_cell() == pre.pending_cell()
    &&& post.status() == pre.status()
    &&& post.reward() == pre.reward()
    &&& post.score() == pre.score()
}

/// The body after the follow-the-leader shift: the new head in front,
/// every other segment in the cell its predecessor occupied; the old tail
/// cell is dropped.
pub open spec fn shifted_body(body: Seq<usize>, new_head: usize) -> Seq<usize> {
    Seq::new(body.len(), |i: int| if i == 0 { new_head } else { body[i - 1] })
}

/// Whether the head of a body has run into one of its own segments.
pub open spec fn self_collision(body: Seq<usize>) -> bool {
    exists|i: int| 1 <= i < body.len() && (#[trigger] body[i]) == body[0]
}

/// How one tick transforms the world.  A tick of a game not in progress
/// changes nothing.  Otherwise the snake shifts behind its new head and
/// exactly one of three outcomes follows: running into its own body loses
/// the game and stops the tick; reaching the reward cell grows the snake
/// by the dropped tail cell and scores a point, winning the game if the
/// board is now full (the reward becomes the out-of-range sentinel) and
/// placing a fresh reward off the body otherwise; else the snake merely
/// moves on.
pub open spec fn step_spec(pre: World, post: World) -> bool {
    if pre.status() != Some(GameStatus::Played) {
        unchanged(pre, post)
    } else {
        let target = pre.step_target();
        let shifted = shifted_body(pre.snake_body(), target);
        &&& post.grid_width() == pre.grid_width()
        &&& post.grid_size() == pre.grid_size()
        &&& post.snake_heading() == pre.snake_heading()
        &&& post.pending_cell() is None
        &&& if self_collision(shifted) {
            &&& post.status() == Some(GameStatus::Lost)
            &&& post.snake_body() == shifted
            &&& post.reward() == pre.reward()
            &&& post.score() == pre.score()
        } else if target == pre.reward() {
            &&& post.snake_body() == shifted.push(pre.snake_body().last())
            &&& post.score() == pre.score() + 1
            &&& if post.snake_body().len() < pre.grid_size() {
                &&& post.status() == Some(GameStatus::Played)
                &&& post.reward() < pre.grid_size()
                &&& !post.snake_body().contains(post.reward())
                &&& post.reward() != pre.reward()
            } else {
                &&& post.status() == Some(GameStatus::Won)
                &&& post.reward() == usize::MAX
            }
        } else {
            &&& post.status() == Some(GameStatus::Played)
            &&& post.snake_body() == shifted
            &&& post.reward() == pre.reward()
            &&& post.score() == pre.score()
        }
    }
}

impl World {
    /// Advances the simulation by one tick, as [`step_spec`] describes.
    pub fn step(&mut self)
        requires
            old(self).wf(),
        ensures
            final(self).wf(),
            step_spec(*old(self), *final(self)),
    {
        match self.state {
            Some(GameStatus::Played) => {
                let len = self.snake.body.len();
                let ghost b0 = self.snake.body@;
                let old_tail = self.snake.body[len - 1];
                let target: usize = match self.snake.next_cell {
                    Some(cell) => cell,
                    None => self.gen_next_snake_cell(&self.snake.direction),
                };
                self.snake.next_cell = None;
                let mut i: usize = len;
                while i > 1
                    invariant
                        1 <= i <= len,
                        len == self.snake.body@.len(),
                        b0.len() == len,
                        self.width == old(self).width,
                        self.size == old(self).size,
                        self.points == old(self).points,
                        self.state == old(self).state,
                        self.reward_cell == old(self).reward_cell,
                        self.snake.direction == old(self).snake.direction,
                        self.snake.next_cell is None,
                        forall|j: int| 0 <= j < i ==> self.snake.body@[j] == b0[j],
                        forall|j: int| i <= j < len ==> self.snake.body@[j] == b0[j - 1],
                    decreases i,
                {
                    i -= 1;
                    let prev = self.snake.body[i - 1];
                    self.snake.body.set(i, prev);
                }
                self.snake.body.set(0, target);
                proof {
                    assert(self.snake.body@ =~= shifted_body(b0, target));
                }
                let mut hit = false;
                let mut k: usize = 1;
                while k < len
                    invariant
                        1 <= k <= len,
                        len == self.snake.body@.len(),
                        hit <==> exists|j: int|
                            1 <= j < k && (#[trigger] self.snake.body@[j])
                                == self.snake.body@[0],
                    decreases len - k,
                {
                    if self.snake.body[k] == self.snake.body[0] {
                        assert(1 <= k < k + 1 && self.snake.body@[k as int]
                            == self.snake.body@[0]);
                        hit = true;
                    }
                    k += 1;
                }
                assert(hit <==> self_collision(shifted_body(b0, target)));
                if hit {
                    self.state = Some(GameStatus::Lost);
                } else if self.reward_cell == target {
                    self.snake.body.push(old_tail);
                    proof {
                        assert(b0.last() == old_tail);
                        assert(self.snake.body@ =~= shifted_body(b0, target).push(b0.last()));
                    }
                    self.points += 1;
                    if self.snake.body.len() < self.size {
                        let fresh = World::generate_reward_cell(self.size, &self.snake.body);
                        self.reward_cell = fresh;
                        proof {
                            assert(self.snake_body()[0] == target);
                            assert(self.snake_body().contains(target));
                        }
                    } else {
                        self.reward_cell = usize::MAX;
                        self.state = Some(GameStatus::Won);
                    }
                }
            },
            _ => {},
        }
    }

    /// Starts the game: the status becomes Played and nothing else moves.
    /// A finished game, won or lost, is not restartable: begin a fresh
    /// world instead.
    pub fn start_game(&mut self)
        requires
            old(self).wf(),
            old(self).status() is None || old(self).status() == Some(GameStatus::Played),
        ensures
            final(self).wf(),
            final(self).status() == Some(GameStatus::Played),
            final(self).snake_body() == old(self).snake_body(),
            final(self).snake_heading() == old(self).snake_heading(),
            final(self).pending_cell() == old(self).pending_cell(),
            final(self).reward() == old(self).reward(),
            final(self).score() == old(self).score(),
            final(self).grid_width() == old(self).grid_width(),
            final(self).grid_size() == old(self).grid_size(),
    {
        self.state = Some(GameStatus::Played);
    }

    /// The cell under the snake's head.
    pub fn get_snake_head_idx(&self) -> (r: usize)
        requires
            self.wf(),
        ensures
            r == self.snake_head(),
    {
        self.snake.body[0]
    }

    /// The current reward cell.
    pub fn get_reward_cell(&self) -> (r: usize)
        ensures
            r == self.reward(),
    {
        self.reward_cell
    }

    /// The number of reward cells consumed so far.
    pub fn get_points(&self) -> (r: usize)
        ensures
            r == self.score(),
    {
        self.points
    }

    /// The current game status; `None` until the game is started.
    pub fn get_game_status(&self) -> (r: Option<GameStatus>)
        ensures
            r == self.status(),
    {
        self.state
    }

    /// The game status as display text.
    pub fn game_status_text(&self) -> (r: String)
        ensures
            r@ == status_text(self.status()),
    {
        match self.state {
            Some(GameStatus::Won) => "You have won!".to_string(),
            Some(GameStatus::Lost) => "You have lost!".to_string(),
            Some(GameStatus::Played) => "Playing".to_string(),
            None => "No Status".to_string(),
        }
    }

    /// A read-only view of the snake's body, head first.
    pub fn get_snake_cells(&self) -> (r: &Vec<usize>)
        ensures
            r@ == self.snake_body(),
    {
        &self.snake.body
    }

    /// The snake's length in segments.
    pub fn get_snake_length(&self) -> (r: usize)
        ensures
            r == self.snake_body().len(),
    {
        self.snake.body.len()
    }
}

/// The display text of each game status.
pub open spec fn status_text(status: Option<GameStatus>) -> Seq<char> {
    match status {
        Some(GameStatus::Won) => "You have won!"@,
        Some(GameStatus::Lost) => "You have lost!"@,
        Some(GameStatus::Played) => "Playing"@,
        None => "No Status"@,
    }
}

} // verus!
