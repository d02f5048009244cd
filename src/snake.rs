use vstd::prelude::*;
use crate::position::{is_reverse, Direction, Position};

verus! {

/// The snake: its body, head first, the active and the requested direction,
/// and whether the last step ate the food.
#[derive(Clone, Debug)]
pub struct Snake {
    pub body: Vec<Position>,
    pub direction: Direction,
    pub queued_direction: Direction,
    pub did_eat: bool,
}

impl Snake {
    /// The body is never empty.
    pub open spec fn wf(self) -> bool {
        self.body@.len() > 0
    }

    pub open spec fn head_spec(self) -> Position {
        self.body@[0]
    }

    /// Where the head goes on the next step.
    pub open spec fn next_head(self) -> Position {
        self.body@[0].step(self.queued_direction)
    }

    /// The next step stays within the range of the coordinates.
    pub open spec fn can_tick(self) -> bool {
        self.wf() && self.body@[0].can_step(self.queued_direction)
    }

    /// The direction that a request for `dir` leaves queued: the request
    /// itself, unless it reverses the active direction, which discards it.
    pub open spec fn queued_for(self, dir: Direction) -> Direction {
        if dir == self.direction.opposite() {
            self.direction
        } else {
            dir
        }
    }

    /// `next` is this snake after a request for `dir`.
    pub open spec fn is_queued(self, dir: Direction, next: Snake) -> bool {
        &&& next.body@ == self.body@
        &&& next.direction == self.direction
        &&& next.did_eat == self.did_eat
        &&& next.queued_direction == self.queued_for(dir)
    }

    /// The body after one step towards a board whose food is at `food`: the
    /// new head in front, and the tail dropped unless the food was reached.
    pub open spec fn ticked_body(self, food: Position) -> Seq<Position> {
        let h = self.next_head();
        if h == food {
            seq![h] + self.body@
        } else {
            seq![h] + self.body@.drop_last()
        }
    }

    /// `next` is this snake after one step with the food at `food`.
    pub open spec fn is_ticked(self, food: Position, next: Snake) -> bool {
        &&& next.body@ == self.ticked_body(food)
        &&& next.direction == self.queued_direction
        &&& next.queued_direction == self.queued_direction
        &&& next.did_eat == (self.next_head() == food)
    }

    /// A snake of `length` cells laid out horizontally, head at `head_pos`,
    /// the rest towards decreasing x, moving right.
    pub fn new(length: usize, head_pos: Position) -> (r: Snake)
        requires
            length >= 1,
            head_pos.x + 1 >= length,
        ensures
            r.wf(),
            r.body@.len() == length,
            forall|i: int|
                0 <= i < length ==> #[trigger] r.body@[i] == (Position {
                    x: (head_pos.x - i) as usize,
                    y: head_pos.y,
                }),
            r.direction == Direction::Right,
            r.queued_direction == Direction::Right,
            !r.did_eat,
    {
        let mut body: Vec<Position> = Vec::new();
        let mut i: usize = 0;
        while i < length
            invariant
                i <= length,
                head_pos.x + 1 >= length,
                body@.len() == i,
                forall|j: int|
                    0 <= j < i ==> #[trigger] body@[j] == (Position {
                        x: (head_pos.x - j) as usize,
                        y: head_pos.y,
                    }),
            decreases length - i,
        {
            body.push(Position { x: head_pos.x - i, y: head_pos.y });
            i += 1;
        }
        Snake {
            body,
            direction: Direction::Right,
            queued_direction: Direction::Right,
            did_eat: false,
        }
    }

    fn change_direction(&mut self)
        ensures
            *final(self) == (Snake { direction: old(self).queued_direction, ..*old(self) }),
    {
        self.direction = self.queued_direction;
    }

    /// Queues `dir` for the next step; a request that reverses the active
    /// direction resets the queue to the active direction instead.
    pub fn queue_change_direction(&mut self, dir: Direction)
        ensures
            old(self).is_queued(dir, *final(self)),
    {
        if is_reverse(self.direction, dir) {
            self.queued_direction = self.direction;
        } else {
            self.queued_direction = dir;
        }
    }

    pub fn get_head(&self) -> (r: Position)
        requires
            self.wf(),
        ensures
            r == self.head_spec(),
    {
        self.body[0]
    }

    /// One step: commit the queued direction, put the new head in front, and
    /// keep the tail only where the new head reaches `food_pos`.
    ///
    /// The coordinates are unsigned, so a step off the edge of their range
    /// (up or left from 0) is ruled out by `can_tick` rather than wrapped. A
    /// game keeps its head on the board's interior while it is on, so its
    /// steps always meet this.
    pub fn tick(&mut self, food_pos: Position)
        requires
            old(self).can_tick(),
        ensures
            old(self).is_ticked(food_pos, *final(self)),
            final(self).wf(),
    {
        self.did_eat = false;
        let x = self.body[0].x;
        let y = self.body[0].y;
        self.change_direction();
        let new_head = match self.direction {
            Direction::Up => Position { x, y: y - 1 },
            Direction::Left => Position { x: x - 1, y },
            Direction::Down => Position { x, y: y + 1 },
            Direction::Right => Position { x: x + 1, y },
        };
        self.body.insert(0, new_head);
        if new_head == food_pos {
            self.did_eat = true;
        } else {
            self.body.pop();
        }
        proof {
            let old_body = old(self).body@;
            if new_head == food_pos {
                assert(self.body@ =~= seq![new_head] + old_body);
            } else {
                assert(self.body@ =~= seq![new_head] + old_body.drop_last());
            }
        }
    }
}

/// A request takes effect on the next step: the snake then moves in the
/// requested direction, except that a request for the reverse of the active
/// direction is discarded and the snake keeps its direction.
pub proof fn lemma_queued_direction_takes_effect(
    s: Snake,
    dir: Direction,
    queued: Snake,
    food: Position,
    next: Snake,
)
    requires
        s.is_queued(dir, queued),
        queued.is_ticked(food, next),
    ensures
        next.direction == (if dir == s.direction.opposite() {
            s.direction
        } else {
            dir
        }),
        s.direction == Direction::Up && dir == Direction::Down ==> next.direction == Direction::Up,
        s.direction == Direction::Up && (dir == Direction::Left || dir == Direction::Right)
            ==> next.direction == dir,
{
}

} // verus!
