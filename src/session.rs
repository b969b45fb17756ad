use vstd::prelude::*;

use crate::body::{advance, can_step, follow, stepped};
use crate::collision::{
    check_for_death, collides, count_at, eat_food, lemma_eaten_and_left_partition, placeholders,
    without,
};
use crate::direction::{
    first_legal_key, intent_from_keys, legal, opposite_of, resolved, set_intent, Direction,
};
use crate::position::GridPosition;

verus! {

/// Settings fixed when a session is built.
#[derive(Clone, Copy, Debug, PartialEq, Eq, Structural)]
pub struct GameConfig {
    /// Food is placed with both coordinates in `[0, grid_size)`.
    pub grid_size: i32,
}

/// What a rendered entity is.
#[derive(Clone, Copy, Debug, PartialEq, Eq, Structural)]
pub enum EntityKind {
    Head,
    Segment,
    Food,
}

/// The positions to draw after a tick: the head, then the segments from the
/// head to the tail, then the food in the order it was placed.
pub struct SessionSnapshot {
    pub entries: Vec<(EntityKind, GridPosition)>,
}

/// The mathematical state of a session.
pub struct SessionModel {
    pub head: GridPosition,
    /// The heading applied at the last move.
    pub direction: Direction,
    /// The latest legal heading asked for since the last move.
    pub pending: Option<Direction>,
    /// Segments from the one behind the head to the tail.
    pub segments: Seq<GridPosition>,
    /// Food in the order it was placed; entries may coincide.
    pub food: Seq<GridPosition>,
    pub grid_size: int,
}

/// One game: the head, its heading, the body and the food.
pub struct GameSession {
    config: GameConfig,
    head: GridPosition,
    direction: Direction,
    pending: Option<Direction>,
    segments: Vec<GridPosition>,
    food: Vec<GridPosition>,
}

impl View for GameSession {
    type V = SessionModel;

    closed spec fn view(&self) -> SessionModel {
        SessionModel {
            head: self.head,
            direction: self.direction,
            pending: self.pending,
            segments: self.segments@,
            food: self.food@,
            grid_size: self.config.grid_size as int,
        }
    }
}

/// The layout every session starts from: head at the origin heading Up, one
/// segment just below it, no food.
pub open spec fn initial_model(grid_size: int) -> SessionModel {
    SessionModel {
        head: GridPosition { x: 0, y: 0 },
        direction: Direction::Up,
        pending: None,
        segments: seq![GridPosition { x: 0, y: -1i32 }],
        food: Seq::empty(),
        grid_size,
    }
}

/// The heading the next move takes.
pub open spec fn heading(m: SessionModel) -> Direction {
    match m.pending {
        Some(d) => resolved(d, m.direction),
        None => m.direction,
    }
}

/// Whether the next move keeps the head within the `i32` lattice.
pub open spec fn can_tick(m: SessionModel) -> bool {
    can_step(m.head, heading(m))
}

/// The state after a heading is asked for: kept where it is legal, ignored
/// where it reverses the heading of the last move.
pub open spec fn submitted(m: SessionModel, d: Direction) -> SessionModel {
    if legal(d, m.direction) {
        SessionModel { pending: Some(d), ..m }
    } else {
        m
    }
}

/// The state after the pending heading is applied and the snake moves one cell.
pub open spec fn moved(m: SessionModel) -> SessionModel {
    SessionModel {
        head: stepped(m.head, heading(m)),
        direction: heading(m),
        pending: None,
        segments: follow(m.head, m.segments),
        ..m
    }
}

/// The state after the food at the head is eaten, one new segment per food.
pub open spec fn fed(m: SessionModel) -> SessionModel {
    SessionModel {
        food: without(m.food, m.head),
        segments: m.segments + placeholders(count_at(m.food, m.head)),
        ..m
    }
}

/// Whether the head, after the move, stands on a segment.
pub open spec fn dies(m: SessionModel) -> bool {
    collides(moved(m).head, moved(m).segments)
}

/// One movement tick: move, eat, and start over where the head hit the body.
pub open spec fn ticked(m: SessionModel) -> SessionModel {
    if dies(m) {
        initial_model(m.grid_size)
    } else {
        fed(moved(m))
    }
}

/// The state after one food is placed at `p`.
pub open spec fn with_food(m: SessionModel, p: GridPosition) -> SessionModel {
    SessionModel { food: m.food.push(p), ..m }
}

/// The state after food is placed at each of `ps`, in order.
pub open spec fn with_foods(m: SessionModel, ps: Seq<GridPosition>) -> SessionModel
    decreases ps.len(),
{
    if ps.len() == 0 {
        m
    } else {
        with_food(with_foods(m, ps.drop_last()), ps.last())
    }
}

/// `s` with each position tagged by `kind`.
pub open spec fn tagged(kind: EntityKind, s: Seq<GridPosition>) -> Seq<(EntityKind, GridPosition)> {
    s.map_values(|p: GridPosition| (kind, p))
}

/// What a snapshot of `m` lists.
pub open spec fn snapshot_of(m: SessionModel) -> Seq<(EntityKind, GridPosition)> {
    seq![(EntityKind::Head, m.head)] + tagged(EntityKind::Segment, m.segments) + tagged(
        EntityKind::Food,
        m.food,
    )
}

/// Relies on rand::Rng::gen_range on rand::thread_rng: a value drawn from
/// `[0, bound)`; it panics on an empty range, which `requires` leaves out.
#[verifier::external_body]
fn random_below(bound: i32) -> (r: i32)
    requires
        bound > 0,
    ensures
        0 <= r < bound,
{
    rand::Rng::gen_range(&mut rand::thread_rng(), 0..bound)
}

fn push_tagged(entries: &mut Vec<(EntityKind, GridPosition)>, kind: EntityKind, s: &Vec<GridPosition>)
    ensures
        final(entries)@ == old(entries)@ + tagged(kind, s@),
{
    let ghost start = entries@;
    let mut i: usize = 0;
    while i < s.len()
        invariant
            0 <= i <= s@.len(),
            entries@ == start + tagged(kind, s@.subrange(0, i as int)),
        decreases s@.len() - i,
    {
        entries.push((kind, s[i]));
        i = i + 1;
        assert(entries@ =~= start + tagged(kind, s@.subrange(0, i as int)));
    }
    assert(s@.subrange(0, s@.len() as int) =~= s@);
}

impl GameSession {
    /// Whether the session is in a state its operations accept.
    pub open spec fn wf(&self) -> bool {
        self@.grid_size > 0 && self@.segments.len() >= 1
    }

    /// A session in the initial layout.
    pub fn new(config: GameConfig) -> (r: GameSession)
        requires
            config.grid_size > 0,
        ensures
            r.wf(),
            r@ == initial_model(config.grid_size as int),
    {
        let mut segments: Vec<GridPosition> = Vec::new();
        segments.push(GridPosition { x: 0, y: -1 });
        let r = GameSession {
            config,
            head: GridPosition { x: 0, y: 0 },
            direction: Direction::Up,
            pending: None,
            segments,
            food: Vec::new(),
        };
        assert(r@.segments =~= seq![GridPosition { x: 0, y: -1i32 }]);
        assert(r@.food =~= Seq::<GridPosition>::empty());
        r
    }

    /// Puts the session back into the initial layout, food cleared.
    pub fn reset(&mut self)
        requires
            old(self).wf(),
        ensures
            final(self).wf(),
            final(self)@ == initial_model(old(self)@.grid_size),
    {
        let mut segments: Vec<GridPosition> = Vec::new();
        segments.push(GridPosition { x: 0, y: -1 });
        self.head = GridPosition { x: 0, y: 0 };
        self.direction = Direction::Up;
        self.pending = None;
        self.segments = segments;
        self.food = Vec::new();
        assert(self@.segments =~= seq![GridPosition { x: 0, y: -1i32 }]);
        assert(self@.food =~= Seq::<GridPosition>::empty());
    }

    /// Records a requested heading for the next move. A request that reverses
    /// the heading of the last move is ignored; otherwise the latest one wins.
    pub fn submit_direction_intent(&mut self, d: Direction)
        requires
            old(self).wf(),
        ensures
            final(self).wf(),
            final(self)@ == submitted(old(self)@, d),
    {
        if d != opposite_of(self.direction) {
            self.pending = Some(d);
        }
    }

    /// Records the keys held in one frame: the first pressed one, in the order
    /// Up, Down, Left, Right, that does not reverse the last move's heading.
    pub fn submit_keys(&mut self, up: bool, down: bool, left: bool, right: bool)
        requires
            old(self).wf(),
        ensures
            final(self).wf(),
            final(self)@ == (match first_legal_key(up, down, left, right, old(self)@.direction) {
                Some(d) => submitted(old(self)@, d),
                None => old(self)@,
            }),
    {
        match intent_from_keys(up, down, left, right, self.direction) {
            Some(d) => self.submit_direction_intent(d),
            None => {},
        }
    }

    pub fn config(&self) -> (r: GameConfig)
        ensures
            r.grid_size == self@.grid_size,
    {
        self.config
    }

    pub fn head(&self) -> (r: GridPosition)
        ensures
            r == self@.head,
    {
        self.head
    }

    /// The heading applied at the last move.
    pub fn direction(&self) -> (r: Direction)
        ensures
            r == self@.direction,
    {
        self.direction
    }

    /// The latest legal heading asked for since the last move.
    pub fn pending(&self) -> (r: Option<Direction>)
        ensures
            r == self@.pending,
    {
        self.pending
    }

    /// Segments from the one behind the head to the tail.
    pub fn segments(&self) -> (r: &Vec<GridPosition>)
        ensures
            r@ == self@.segments,
    {
        &self.segments
    }

    /// Food in the order it was placed.
    pub fn food(&self) -> (r: &Vec<GridPosition>)
        ensures
            r@ == self@.food,
    {
        &self.food
    }

    /// Whether the next move keeps the head within the `i32` lattice.
    pub fn can_advance(&self) -> (r: bool)
        ensures
            r == can_tick(self@),
    {
        let d = match self.pending {
            Some(p) => set_intent(p, self.direction),
            None => self.direction,
        };
        match d {
            Direction::Up => self.head.y < i32::MAX,
            Direction::Down => self.head.y > i32::MIN,
            Direction::Left => self.head.x > i32::MIN,
            Direction::Right => self.head.x < i32::MAX,
        }
    }

    /// The positions to draw: head, segments, then food.
    pub fn snapshot(&self) -> (r: SessionSnapshot)
        ensures
            r.entries@ == snapshot_of(self@),
    {
        let mut entries: Vec<(EntityKind, GridPosition)> = Vec::new();
        entries.push((EntityKind::Head, self.head));
        push_tagged(&mut entries, EntityKind::Segment, &self.segments);
        push_tagged(&mut entries, EntityKind::Food, &self.food);
        assert(entries@ =~= snapshot_of(self@));
        SessionSnapshot { entries }
    }

    /// One movement tick: applies the pending heading, moves the snake, eats
    /// the food at the new head, and starts over where the head hit the body.
    pub fn on_movement_tick(&mut self) -> (r: SessionSnapshot)
        requires
            old(self).wf(),
            can_tick(old(self)@),
        ensures
            final(self).wf(),
            final(self)@ == ticked(old(self)@),
            r.entries@ == snapshot_of(final(self)@),
    {
        let ghost m = self@;
        let d = match self.pending {
            Some(p) => set_intent(p, self.direction),
            None => self.direction,
        };
        self.direction = d;
        self.pending = None;
        let new_head = advance(self.head, d, &mut self.segments);
        self.head = new_head;
        assert(self@ == moved(m));
        let dead = check_for_death(new_head, &self.segments);
        eat_food(new_head, &mut self.food, &mut self.segments);
        if dead {
            self.reset();
        } else {
            assert(self@ == fed(moved(m)));
        }
        self.snapshot()
    }

    /// Places one food at `p`, beside any food already there.
    pub fn add_food(&mut self, p: GridPosition)
        requires
            old(self).wf(),
        ensures
            final(self).wf(),
            final(self)@ == with_food(old(self)@, p),
    {
        self.food.push(p);
    }

    /// One food-spawn tick: places a food at a random cell of the grid and
    /// returns it.
    pub fn on_spawn_tick(&mut self) -> (r: GridPosition)
        requires
            old(self).wf(),
        ensures
            final(self).wf(),
            0 <= r.x < old(self)@.grid_size,
            0 <= r.y < old(self)@.grid_size,
            final(self)@ == with_food(old(self)@, r),
    {
        let x = random_below(self.config.grid_size);
        let y = random_below(self.config.grid_size);
        let p = GridPosition { x, y };
        self.add_food(p);
        p
    }
}

/// A tick on which no food lies at the new head and the head hits no segment
/// leaves the number of segments as it was.
pub proof fn lemma_tick_keeps_length(m: SessionModel)
    requires
        can_tick(m),
        count_at(m.food, moved(m).head) == 0,
        !dies(m),
    ensures
        ticked(m).segments.len() == m.segments.len(),
{
}

/// A tick on which the head hits no segment adds exactly one segment for each
/// food at the new head, and removes exactly those foods.
pub proof fn lemma_growth_matches_eaten(m: SessionModel)
    requires
        can_tick(m),
        !dies(m),
    ensures
        ticked(m).segments.len() == m.segments.len() + count_at(m.food, moved(m).head),
        ticked(m).food.len() + count_at(m.food, moved(m).head) == m.food.len(),
        count_at(ticked(m).food, ticked(m).head) == 0,
{
    lemma_eaten_and_left_partition(m.food, moved(m).head);
}

/// A tick starts the session over exactly when the moved head stands on a
/// moved segment; otherwise it moves and eats.
pub proof fn lemma_death_resets(m: SessionModel)
    requires
        can_tick(m),
    ensures
        dies(m) <==> exists|i: int|
            0 <= i < m.segments.len() && #[trigger] follow(m.head, m.segments)[i] == stepped(
                m.head,
                heading(m),
            ),
        dies(m) ==> ticked(m) == initial_model(m.grid_size),
        !dies(m) ==> ticked(m) == fed(moved(m)),
{
    let h = stepped(m.head, heading(m));
    let s = follow(m.head, m.segments);
    if dies(m) {
        let i = choose|i: int| 0 <= i < s.len() && s[i] == h;
        assert(follow(m.head, m.segments)[i] == h);
    }
}

/// The initial layout: head at the origin heading Up, one segment at (0, -1),
/// nothing pending and no food.
pub proof fn lemma_initial_layout(grid_size: int)
    ensures
        initial_model(grid_size).head == (GridPosition { x: 0, y: 0 }),
        initial_model(grid_size).segments.len() == 1,
        initial_model(grid_size).segments[0] == (GridPosition { x: 0, y: -1i32 }),
        initial_model(grid_size).direction == Direction::Up,
        initial_model(grid_size).food.len() == 0,
{
}

/// Placing food at each of `ps` adds every one of them, in order, with no
/// merging of equal positions; the rest of the state is untouched.
pub proof fn lemma_spawns_accumulate(m: SessionModel, ps: Seq<GridPosition>)
    ensures
        with_foods(m, ps).food == m.food + ps,
        with_foods(m, ps).food.len() == m.food.len() + ps.len(),
        with_foods(m, ps).head == m.head,
        with_foods(m, ps).segments == m.segments,
        with_foods(m, ps).direction == m.direction,
        with_foods(m, ps).pending == m.pending,
    decreases ps.len(),
{
    if ps.len() > 0 {
        lemma_spawns_accumulate(m, ps.drop_last());
        assert((m.food + ps.drop_last()).push(ps.last()) =~= m.food + ps);
    } else {
        assert(m.food + ps =~= m.food);
    }
}

} // verus!
