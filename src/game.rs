use vstd::prelude::*;
use rand::Rng;
use crate::position::{Direction, Position};
use crate::snake::Snake;

verus! {

/// The one-cell border is wall: a playable cell lies in
/// `[1, width-2] x [1, height-2]`.
pub open spec fn in_interior(p: Position, width: usize, height: usize) -> bool {
    &&& 1 <= p.x <= width - 2
    &&& 1 <= p.y <= height - 2
}

/// A playable cell that no segment of `body` occupies.
pub open spec fn is_free(p: Position, width: usize, height: usize, body: Seq<Position>) -> bool {
    in_interior(p, width, height) && !body.contains(p)
}

pub open spec fn has_free_cell(width: usize, height: usize, body: Seq<Position>) -> bool {
    exists|p: Position| is_free(p, width, height, body)
}

/// The head of `body` meets another segment or leaves the playable cells.
pub open spec fn loses(body: Seq<Position>, width: usize, height: usize) -> bool {
    ||| exists|i: int| 1 <= i < body.len() && #[trigger] body[i] == body[0]
    ||| !in_interior(body[0], width, height)
}

/// What placing food leaves: a free cell where one exists, else the food
/// where it was.
pub open spec fn food_placed(
    old_food: Position,
    width: usize,
    height: usize,
    body: Seq<Position>,
    new_food: Position,
) -> bool {
    if has_free_cell(width, height, body) {
        is_free(new_food, width, height, body)
    } else {
        new_food == old_food
    }
}

/// Relies on rand::thread_rng and Rng::gen_range: a number drawn from
/// `lo..=hi`, which panics only on an empty range.
#[verifier::external_body]
fn random_in(lo: usize, hi: usize) -> (r: usize)
    requires
        lo <= hi,
    ensures
        lo <= r <= hi,
{
    rand::thread_rng().gen_range(lo..=hi)
}

/// Whether some segment of `body` at index `start` or later is at `p`.
pub fn contains_from(body: &Vec<Position>, start: usize, p: Position) -> (r: bool)
    ensures
        r == (exists|i: int| start <= i < body@.len() && #[trigger] body@[i] == p),
{
    let mut i: usize = start;
    while i < body.len()
        invariant
            start <= i,
            forall|j: int| start <= j < i && j < body@.len() ==> body@[j] != p,
        decreases body@.len() - i,
    {
        if body[i] == p {
            return true;
        }
        i += 1;
    }
    false
}

/// Every free playable cell of the board, each once.
pub fn free_cells(width: usize, height: usize, body: &Vec<Position>) -> (r: Vec<Position>)
    ensures
        forall|p: Position| r@.contains(p) <==> is_free(p, width, height, body@),
{
    let mut cells: Vec<Position> = Vec::new();
    if width < 3 || height < 3 {
        return cells;
    }
    let mut y: usize = 1;
    while y <= height - 2
        invariant
            width >= 3,
            height >= 3,
            1 <= y <= height - 1,
            forall|p: Position|
                cells@.contains(p) <==> (is_free(p, width, height, body@) && p.y < y),
        decreases height - y,
    {
        let mut x: usize = 1;
        while x <= width - 2
            invariant
                width >= 3,
                height >= 3,
                1 <= y <= height - 2,
                1 <= x <= width - 1,
                forall|p: Position|
                    cells@.contains(p) <==> (is_free(p, width, height, body@) && (p.y < y || (
                    p.y == y && p.x < x))),
            decreases width - x,
        {
            let p = Position { x, y };
            let taken = contains_from(body, 0, p);
            let ghost before = cells@;
            if !taken {
                cells.push(p);
            }
            proof {
                assert forall|q: Position|
                    cells@.contains(q) <==> (is_free(q, width, height, body@) && (q.y < y || (q.y
                        == y && q.x <= x))) by {
                    if !taken {
                        assert(cells@ == before.push(p));
                        if q == p {
                            assert(cells@[before.len() as int] == p);
                        }
                        if before.contains(q) {
                            let k = choose|k: int| 0 <= k < before.len() && before[k] == q;
                            assert(cells@[k] == q);
                        }
                        if cells@.contains(q) && q != p {
                            let k = choose|k: int| 0 <= k < cells@.len() && cells@[k] == q;
                            assert(before[k] == q);
                        }
                    }
                }
            }
            x += 1;
        }
        y += 1;
    }
    cells
}

/// A free playable cell drawn uniformly at random, or `None` where the snake
/// leaves none.
pub fn random_free_cell(width: usize, height: usize, body: &Vec<Position>) -> (r: Option<Position>)
    ensures
        match r {
            Some(p) => is_free(p, width, height, body@),
            None => !has_free_cell(width, height, body@),
        },
{
    let cells = free_cells(width, height, body);
    if cells.len() == 0 {
        proof {
            assert forall|p: Position| !is_free(p, width, height, body@) by {
                if is_free(p, width, height, body@) {
                    assert(cells@.contains(p));
                }
            }
        }
        None
    } else {
        let i = random_in(0, cells.len() - 1);
        assert(cells@.contains(cells@[i as int]));
        Some(cells[i])
    }
}

/// Why a game refused a step.
#[derive(Clone, Copy, Debug, PartialEq, Eq, Structural)]
pub enum GameError {
    /// The game was already lost.
    TickAfterLoss,
}

/// The whole state of one session.
#[derive(Clone, Debug)]
pub struct Game {
    pub width: usize,
    pub height: usize,
    pub food: Position,
    pub snake: Snake,
    pub score: usize,
    pub lost: bool,
}

impl Game {
    /// The board has an interior, the snake a body, the score counts at most
    /// one point per segment, and a game still on has its head on the board.
    pub open spec fn wf(self) -> bool {
        &&& self.width >= 3
        &&& self.height >= 3
        &&& self.snake.wf()
        &&& self.score <= self.snake.body@.len()
        &&& !self.lost ==> in_interior(self.snake.head_spec(), self.width, self.height)
    }

    /// The rules' invariant: the food lies on a free playable cell, and a game
    /// still on has its head on the board and clear of the other segments.
    pub open spec fn inv(self) -> bool {
        &&& self.wf()
        &&& is_free(self.food, self.width, self.height, self.snake.body@)
        &&& !self.lost ==> !loses(self.snake.body@, self.width, self.height)
    }

    /// `next` is this game after a request for `dir`.
    pub open spec fn is_queued(self, dir: Direction, next: Game) -> bool {
        &&& next == (Game { snake: next.snake, ..self })
        &&& self.snake.is_queued(dir, next.snake)
    }

    /// `next` is this game after new food was placed.
    pub open spec fn is_refed(self, next: Game) -> bool {
        &&& next == (Game { food: next.food, ..self })
        &&& food_placed(self.food, self.width, self.height, self.snake.body@, next.food)
    }

    /// `next` is this game, not yet lost, after one step: the snake moves, a
    /// meal scores a point and moves the food, and the new head is judged.
    pub open spec fn is_ticked(self, next: Game) -> bool {
        &&& next.width == self.width
        &&& next.height == self.height
        &&& self.snake.is_ticked(self.food, next.snake)
        &&& next.score == (if next.snake.did_eat { self.score + 1 } else { self.score as int })
        &&& if next.snake.did_eat {
            food_placed(self.food, self.width, self.height, next.snake.body@, next.food)
        } else {
            next.food == self.food
        }
        &&& next.lost == loses(next.snake.body@, self.width, self.height)
    }

    /// A step leaves a lost game as it is, and steps one that is still on.
    pub open spec fn tick_outcome(self, next: Game) -> bool {
        if self.lost {
            next == self
        } else {
            self.is_ticked(next)
        }
    }

    /// A fresh game: a snake of four cells with its head at the centre,
    /// moving right, food on a free cell, no score.
    pub fn new(width: usize, height: usize) -> (r: Game)
        requires
            width / 2 >= 4,
            height >= 3,
        ensures
            r.wf(),
            r.width == width,
            r.height == height,
            r.snake.body@ == seq![
                Position { x: (width / 2) as usize, y: (height / 2) as usize },
                Position { x: (width / 2 - 1) as usize, y: (height / 2) as usize },
                Position { x: (width / 2 - 2) as usize, y: (height / 2) as usize },
                Position { x: (width / 2 - 3) as usize, y: (height / 2) as usize },
            ],
            r.snake.direction == Direction::Right,
            r.snake.queued_direction == Direction::Right,
            !r.snake.did_eat,
            r.inv(),
            is_free(r.food, width, height, r.snake.body@),
            r.score == 0,
            !r.lost,
    {
        let snake = Snake::new(4, Position { x: width / 2, y: height / 2 });
        let mut game = Game {
            width,
            height,
            food: Position { x: width - 2, y: height / 2 },
            snake,
            score: 0,
            lost: false,
        };
        proof {
            let b = game.snake.body@;
            assert(b[0] == Position { x: (width / 2) as usize, y: (height / 2) as usize });
            assert(b[1] == Position { x: (width / 2 - 1) as usize, y: (height / 2) as usize });
            assert(b[2] == Position { x: (width / 2 - 2) as usize, y: (height / 2) as usize });
            assert(b[3] == Position { x: (width / 2 - 3) as usize, y: (height / 2) as usize });
            assert(b =~= seq![b[0], b[1], b[2], b[3]]);
            assert(is_free(game.food, width, height, b));
        }
        game.place_new_food();
        game
    }

    pub fn queue_change_direction(&mut self, dir: Direction)
        ensures
            old(self).is_queued(dir, *final(self)),
    {
        self.snake.queue_change_direction(dir);
    }

    /// Moves the food to a free playable cell drawn uniformly at random: the
    /// same distribution as redrawing a playable cell until it misses the
    /// snake, but always done in one draw. Where the snake leaves no free
    /// cell, the food stays.
    pub fn place_new_food(&mut self)
        ensures
            old(self).is_refed(*final(self)),
            has_free_cell(old(self).width, old(self).height, old(self).snake.body@)
                ==> !final(self).snake.body@.contains(final(self).food),
    {
        match random_free_cell(self.width, self.height, &self.snake.body) {
            Some(p) => {
                self.food = p;
            },
            None => {},
        }
    }

    /// A playable cell drawn uniformly at random, occupied or not.
    pub fn get_new_food_pos(width: usize, height: usize) -> (r: Position)
        requires
            width >= 3,
            height >= 3,
        ensures
            in_interior(r, width, height),
    {
        let x = random_in(1, width - 2);
        let y = random_in(1, height - 2);
        Position { x, y }
    }

    /// One step of the game: the snake moves, a meal scores a point and moves
    /// the food, and the game is lost where the head meets another segment or
    /// the wall. A game already lost is left as it is, and the step is refused
    /// with `TickAfterLoss`, so that a driver cannot go on with a dead game.
    pub fn tick(&mut self) -> (r: Result<(), GameError>)
        requires
            old(self).wf(),
        ensures
            final(self).wf(),
            old(self).tick_outcome(*final(self)),
            r == (if old(self).lost {
                Err::<(), GameError>(GameError::TickAfterLoss)
            } else {
                Ok::<(), GameError>(())
            }),
    {
        if self.lost {
            return Err(GameError::TickAfterLoss);
        }
        self.snake.tick(self.food);
        let new_head = self.snake.get_head();
        if self.snake.did_eat {
            // the body grew by one segment, so the score stays below its length
            let len = self.snake.body.len();
            assert(self.score < len);
            self.score = self.score + 1;
            self.place_new_food();
        }
        let hit_self = contains_from(&self.snake.body, 1, new_head);
        if hit_self || new_head.x < 1 || new_head.x > self.width - 2 || new_head.y < 1
            || new_head.y > self.height - 2 {
            self.lost = true;
        }
        Ok(())
    }
}

/// A step on which the head reaches the food lengthens the body by one
/// segment and adds one point.
pub proof fn lemma_growth(g: Game, next: Game)
    requires
        g.wf(),
        !g.lost,
        g.snake.next_head() == g.food,
        g.tick_outcome(next),
    ensures
        next.snake.body@.len() == g.snake.body@.len() + 1,
        next.score == g.score + 1,
{
}

/// A step on which the head misses the food keeps the body's length and the
/// score.
pub proof fn lemma_no_growth(g: Game, next: Game)
    requires
        g.wf(),
        !g.lost,
        g.snake.next_head() != g.food,
        g.tick_outcome(next),
    ensures
        next.snake.body@.len() == g.snake.body@.len(),
        next.score == g.score,
{
}

/// Food that is off the snake stays off it after a step, wherever a meal
/// leaves the board a free cell to put the new food on.
pub proof fn lemma_food_off_snake(g: Game, next: Game)
    requires
        g.wf(),
        !g.snake.body@.contains(g.food),
        g.tick_outcome(next),
        next.snake.did_eat && !g.lost ==> has_free_cell(next.width, next.height, next.snake.body@),
    ensures
        !next.snake.body@.contains(next.food),
{
    if !g.lost && !next.snake.did_eat {
        let old_body = g.snake.body@;
        let body = next.snake.body@;
        assert(body == seq![g.snake.next_head()] + old_body.drop_last());
        if body.contains(next.food) {
            let k = choose|k: int| 0 <= k < body.len() && body[k] == next.food;
            if k > 0 {
                assert(old_body[k - 1] == g.food);
            }
        }
    }
}

/// Once lost, a game stays lost: no step, request or placement of food
/// takes it back.
pub proof fn lemma_loss_latch(g: Game, dir: Direction, next: Game)
    requires
        g.lost,
    ensures
        g.tick_outcome(next) ==> next.lost,
        g.is_queued(dir, next) ==> next.lost,
        g.is_refed(next) ==> next.lost,
{
}

/// Steps and requests keep the rules' invariant, wherever a meal leaves the
/// board a free cell to put the new food on.
pub proof fn lemma_invariant_kept(g: Game, dir: Direction, next: Game)
    requires
        g.inv(),
    ensures
        g.is_queued(dir, next) ==> next.inv(),
        g.tick_outcome(next) && next.wf() && (next.snake.did_eat && !g.lost ==> has_free_cell(
            next.width,
            next.height,
            next.snake.body@,
        )) ==> next.inv(),
{
    if g.tick_outcome(next) && next.wf() && (next.snake.did_eat && !g.lost ==> has_free_cell(
        next.width,
        next.height,
        next.snake.body@,
    )) {
        lemma_food_off_snake(g, next);
    }
}

} // verus!
