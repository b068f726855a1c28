use vstd::prelude::*;

use crate::interactor::{Action, Interactor};
use crate::node_map::NodeMap;
use crate::skill::Key;

verus! {

/// A grid position relative to where exploration started.
pub type Pos = (i32, i32);

/// Virtual-key codes of the four walking keys.
pub const VK_A: u16 = 0x41;
pub const VK_D: u16 = 0x44;
pub const VK_S: u16 = 0x53;
pub const VK_W: u16 = 0x57;

#[derive(Debug, Clone, Copy, PartialEq, Eq, Structural)]
pub enum Direction {
    Left,
    Right,
    Up,
    Down,
}

impl Direction {
    pub open spec fn delta_spec(self) -> (int, int) {
        match self {
            Direction::Up => (0, -1),
            Direction::Down => (0, 1),
            Direction::Left => (-1, 0),
            Direction::Right => (1, 0),
        }
    }

    pub open spec fn opposite_spec(self) -> Direction {
        match self {
            Direction::Up => Direction::Down,
            Direction::Down => Direction::Up,
            Direction::Left => Direction::Right,
            Direction::Right => Direction::Left,
        }
    }

    /// The change of position that one step in this direction makes.
    pub fn delta(self) -> (r: (i32, i32))
        ensures
            (r.0 as int, r.1 as int) == self.delta_spec(),
    {
        match self {
            Direction::Up => (0, -1),
            Direction::Down => (0, 1),
            Direction::Left => (-1, 0),
            Direction::Right => (1, 0),
        }
    }

    pub fn opposite(self) -> (r: Direction)
        ensures
            r == self.opposite_spec(),
    {
        match self {
            Direction::Up => Direction::Down,
            Direction::Down => Direction::Up,
            Direction::Left => Direction::Right,
            Direction::Right => Direction::Left,
        }
    }

    /// The walking key of this direction.
    pub fn to_key(self) -> (r: Key)
        ensures
            r == (match self {
                Direction::Left => Key(VK_A),
                Direction::Right => Key(VK_D),
                Direction::Up => Key(VK_W),
                Direction::Down => Key(VK_S),
            }),
    {
        match self {
            Direction::Left => Key(VK_A),
            Direction::Right => Key(VK_D),
            Direction::Up => Key(VK_W),
            Direction::Down => Key(VK_S),
        }
    }
}

/// The position one step from `p` in direction `d`.
pub open spec fn next_pos(p: Pos, d: Direction) -> (int, int) {
    (p.0 + d.delta_spec().0, p.1 + d.delta_spec().1)
}

pub open spec fn is_at(q: Pos, c: (int, int)) -> bool {
    q.0 as int == c.0 && q.1 as int == c.1
}

/// The four directions in the order of the list that each new frame gets;
/// they are tried from the end.
pub fn all_directions() -> (r: Vec<Direction>)
    ensures
        r@ == seq![Direction::Up, Direction::Down, Direction::Left, Direction::Right],
{
    vec![Direction::Up, Direction::Down, Direction::Left, Direction::Right]
}

/// A known maze position: whether it was visited, and the position that a
/// successful move in each direction led to.
#[derive(Debug, Clone, Copy, PartialEq, Eq)]
pub struct Node {
    pub visited: bool,
    pub left: Option<Pos>,
    pub right: Option<Pos>,
    pub up: Option<Pos>,
    pub down: Option<Pos>,
}

/// The neighbour that the last entry for `d` in `s` names.
pub open spec fn listed_neighbor(s: Seq<(Direction, Pos)>, d: Direction) -> Option<Pos>
    decreases s.len(),
{
    if s.len() == 0 {
        None
    } else if s.last().0 == d {
        Some(s.last().1)
    } else {
        listed_neighbor(s.drop_last(), d)
    }
}

impl Node {
    pub open spec fn neighbor(self, d: Direction) -> Option<Pos> {
        match d {
            Direction::Left => self.left,
            Direction::Right => self.right,
            Direction::Up => self.up,
            Direction::Down => self.down,
        }
    }

    pub open spec fn with_neighbor_spec(self, d: Direction, p: Pos) -> Node {
        match d {
            Direction::Left => Node { left: Some(p), ..self },
            Direction::Right => Node { right: Some(p), ..self },
            Direction::Up => Node { up: Some(p), ..self },
            Direction::Down => Node { down: Some(p), ..self },
        }
    }

    /// A node with the given visited flag and neighbours; of two entries for
    /// one direction the later counts.
    pub fn new(visited: bool, neighbors: Vec<(Direction, Pos)>) -> (r: Node)
        ensures
            r.visited == visited,
            forall|d: Direction| #[trigger] r.neighbor(d) == listed_neighbor(neighbors@, d),
    {
        let mut node = Node { visited, left: None, right: None, up: None, down: None };
        let mut i: usize = 0;
        while i < neighbors.len()
            invariant
                0 <= i <= neighbors@.len(),
                node.visited == visited,
                forall|d: Direction| #[trigger] node.neighbor(d) == listed_neighbor(
                    neighbors@.subrange(0, i as int),
                    d,
                ),
            decreases neighbors.len() - i,
        {
            let (d, p) = neighbors[i];
            let ghost before = node;
            node = node.with_neighbor(d, p);
            proof {
                let s = neighbors@.subrange(0, i + 1);
                assert(s.drop_last() =~= neighbors@.subrange(0, i as int));
                assert(s.last() == (d, p));
                assert forall|dd: Direction| #[trigger] node.neighbor(dd) == listed_neighbor(
                    s,
                    dd,
                ) by {
                    assert(before.neighbor(dd) == listed_neighbor(s.drop_last(), dd));
                }
            }
            i += 1;
        }
        assert(neighbors@.subrange(0, neighbors@.len() as int) =~= neighbors@);
        node
    }

    pub open spec fn make_visited_spec(self) -> Node {
        Node { visited: true, ..self }
    }

    /// The same node, marked visited.
    pub fn make_visited(&self) -> (r: Node)
        ensures
            r == self.make_visited_spec(),
    {
        Node { visited: true, ..*self }
    }

    pub fn get_neighbor(&self, d: Direction) -> (r: Option<Pos>)
        ensures
            r == self.neighbor(d),
    {
        match d {
            Direction::Left => self.left,
            Direction::Right => self.right,
            Direction::Up => self.up,
            Direction::Down => self.down,
        }
    }

    /// The same node with `p` as its neighbour in direction `d`.
    pub fn with_neighbor(self, d: Direction, p: Pos) -> (r: Node)
        ensures
            r == self.with_neighbor_spec(d, p),
    {
        match d {
            Direction::Left => Node { left: Some(p), ..self },
            Direction::Right => Node { right: Some(p), ..self },
            Direction::Up => Node { up: Some(p), ..self },
            Direction::Down => Node { down: Some(p), ..self },
        }
    }
}

impl Default for Node {
    /// An unvisited node without neighbours.
    fn default() -> (r: Node)
        ensures
            r == (Node { visited: false, left: None, right: None, up: None, down: None }),
    {
        Node { visited: false, left: None, right: None, up: None, down: None }
    }
}

/// Every recorded edge leads one step in its direction to a known position
/// whose node records the opposite edge back.
pub open spec fn edges_symmetric(m: Map<Pos, Node>) -> bool {
    forall|p: Pos, d: Direction|
        #![trigger m[p].neighbor(d)]
        m.contains_key(p) && m[p].neighbor(d) is Some ==> {
            let q = m[p].neighbor(d)->Some_0;
            &&& is_at(q, next_pos(p, d))
            &&& m.contains_key(q)
            &&& m[q].neighbor(d.opposite_spec()) == Some(p)
        }
}

/// Iterative depth-first explorer of a maze whose passages are discovered
/// only by trying to move.
#[derive(Debug)]
pub struct Solver {
    map: NodeMap,
    stack: Vec<(Pos, Vec<Direction>)>,
    current_pos: Pos,
}

/// The position one step from `p` towards `d`, unless it leaves the range of
/// `i32`.
fn step_from(p: Pos, d: Direction) -> (r: Option<Pos>)
    ensures
        r matches Some(q) ==> is_at(q, next_pos(p, d)),
{
    let (dx, dy) = d.delta();
    let x = p.0 as i64 + dx as i64;
    let y = p.1 as i64 + dy as i64;
    if x < i32::MIN as i64 || x > i32::MAX as i64 || y < i32::MIN as i64 || y > i32::MAX as i64 {
        None
    } else {
        Some((x as i32, y as i32))
    }
}

/// The direction of a single step from `from` to `to`, if they are adjacent.
fn direction_between(from: Pos, to: Pos) -> (r: Option<Direction>)
    ensures
        r matches Some(d) ==> is_at(to, next_pos(from, d)),
{
    let all = all_directions();
    let mut i: usize = 0;
    while i < all.len()
        invariant
            0 <= i <= all@.len(),
        decreases all.len() - i,
    {
        let d = all[i];
        match step_from(from, d) {
            Some(q) => {
                if q.0 == to.0 && q.1 == to.1 {
                    return Some(d);
                }
            },
            None => {},
        }
        i += 1;
    }
    None
}

impl Solver {
    pub closed spec fn wf(&self) -> bool {
        &&& self.map.wf()
        &&& edges_symmetric(self.map@)
        &&& forall|k: int|
            0 <= k < self.stack@.len() ==> self.map@.contains_key(#[trigger] self.stack@[k].0)
        &&& self.map@.dom().finite()
        &&& forall|p: Pos|
            #[trigger] self.map@.contains_key(p) && !self.map@[p].visited ==> self.stack@.len() > 0
                && p == self.stack@.last().0
    }

    /// One step that did not finish: either a move to a position new to the
    /// maze, which becomes the top frame, or a backtrack that drops the top
    /// frame and adds no position.
    pub open spec fn steps_to(before: Solver, after: Solver) -> bool {
        ||| {
            &&& after.depth() == before.depth() + 1
            &&& !before.maze().contains_key(after.position())
            &&& after.maze().dom() == before.maze().dom().insert(after.position())
        }
        ||| {
            &&& after.depth() + 1 == before.depth()
            &&& after.maze().dom() == before.maze().dom()
        }
    }

    /// What is left of an exploration confined to `bound` positions: two for
    /// each position not yet discovered, one for each frame.
    pub open spec fn progress(&self, bound: nat) -> int {
        2 * (bound - self.maze().dom().len()) + self.depth()
    }

    /// The discovered maze.
    pub closed spec fn maze(&self) -> Map<Pos, Node> {
        self.map@
    }

    /// Number of frames still to be explored or backtracked.
    pub closed spec fn depth(&self) -> nat {
        self.stack@.len()
    }

    pub closed spec fn position(&self) -> Pos {
        self.current_pos
    }

    /// The position of the `k`-th frame, counted from the bottom.
    pub closed spec fn frame(&self, k: int) -> Pos {
        self.stack@[k].0
    }

    /// The directions still to try in the `k`-th frame; they are tried from
    /// the end.
    pub closed spec fn directions(&self, k: int) -> Seq<Direction> {
        self.stack@[k].1@
    }

    /// A solver at the origin of an unexplored maze.
    pub fn new() -> (r: Solver)
        ensures
            r.wf(),
            r.maze() == Map::<Pos, Node>::empty().insert((0, 0), Node::default_spec()),
            r.depth() == 1,
            r.position() == (0i32, 0i32),
            r.frame(0) == (0i32, 0i32),
            r.directions(0) == seq![Direction::Up, Direction::Down, Direction::Left, Direction::Right],
    {
        let start: Pos = (0, 0);
        let mut map = NodeMap::new();
        map.insert(start, Node::default());
        let mut stack: Vec<(Pos, Vec<Direction>)> = Vec::new();
        stack.push((start, all_directions()));
        let r = Solver { map, stack, current_pos: start };
        assert(r.maze().contains_key(start));
        assert(r.maze().dom() =~= Set::<Pos>::empty().insert(start));
        r
    }

    /// Forgets the maze: back to a single unvisited node at the origin.
    pub fn reset(&mut self)
        ensures
            final(self).wf(),
            final(self).maze() == Map::<Pos, Node>::empty().insert((0, 0), Node::default_spec()),
            final(self).depth() == 1,
            final(self).position() == (0i32, 0i32),
            final(self).frame(0) == (0i32, 0i32),
            final(self).directions(0) == seq![
                Direction::Up,
                Direction::Down,
                Direction::Left,
                Direction::Right,
            ],
    {
        *self = Solver::new();
    }

    /// The discovered maze.
    pub fn map(&self) -> (r: &NodeMap)
        ensures
            r@ == self.maze(),
            self.wf() ==> r.wf(),
    {
        &self.map
    }

    /// The position the character is believed to stand on.
    pub fn current_pos(&self) -> (r: Pos)
        ensures
            r == self.position(),
    {
        self.current_pos
    }

    /// One exploration step: marks the top frame's position visited, then
    /// tries its remaining directions whose destination is not known to be
    /// visited. The first move that `interactor` allows is recorded as an
    /// edge both ways, walked, and pushed as a new frame. When no direction
    /// is left the frame is dropped and the character walks back to the
    /// parent frame's position. Returns true, changing nothing, once no
    /// frame is left.
    pub fn explore_step<I: Interactor>(&mut self, interactor: &mut I, walk_duration_ms: u64) -> (r:
        bool)
        requires
            old(self).wf(),
        ensures
            final(self).wf(),
            r == (old(self).depth() == 0),
            r ==> *final(self) == *old(self),
            forall|p: Pos| #[trigger]
                old(self).maze().contains_key(p) ==> final(self).maze().contains_key(p),
            !r ==> final(self).depth() == old(self).depth() + 1 || final(self).depth()
                == old(self).depth() - 1,
            // the top frame's position is now visited
            !r ==> final(self).maze()[old(self).frame(old(self).depth() - 1)].visited,
            // a move: one edge from the top position to a position not visited
            // before, which becomes the new top frame and the current position
            !r && final(self).depth() == old(self).depth() + 1 ==> {
                let here = old(self).frame(old(self).depth() - 1);
                let there = final(self).position();
                &&& forall|k: int|
                    0 <= k < old(self).depth() ==> #[trigger] final(self).frame(k)
                        == old(self).frame(k)
                &&& final(self).frame(old(self).depth() as int) == there
                &&& exists|d: Direction| #[trigger]
                    final(self).maze()[here].neighbor(d) == Some(there)
                &&& !(old(self).maze().contains_key(there) && old(self).maze()[there].visited)
            },
            !r ==> Solver::steps_to(*old(self), *final(self)),
            r ==> final(interactor).actions() == old(interactor).actions(),
            // the calls made: refused tries towards unknown positions, then
            // either an accepted try and the walk along the new edge, or a
            // walk back to the parent frame, or nothing more
            !r ==> {
                let here = old(self).frame(old(self).depth() - 1);
                let a0 = old(interactor).actions();
                let a1 = final(interactor).actions();
                &&& a0.len() <= a1.len()
                &&& a1.subrange(0, a0.len() as int) == a0
                &&& final(self).depth() == old(self).depth() + 1 ==> exists|d: Direction|
                    {
                        &&& a1.len() >= a0.len() + 2
                        &&& refused_tries(a1, a0.len() as int, a1.len() - 2, old(self).maze(), here)
                        &&& #[trigger] a1[a1.len() - 2] == (Action::TryDirection(d), true)
                        &&& a1[a1.len() - 1].0 == Action::Walk(Some(d))
                        &&& unknown_target(old(self).maze(), here, d)
                        &&& final(self).maze()[here].neighbor(d) == Some(final(self).position())
                        &&& final(self).directions(old(self).depth() as int) == seq![
                            Direction::Up,
                            Direction::Down,
                            Direction::Left,
                            Direction::Right,
                        ]
                    }
                &&& final(self).depth() + 1 == old(self).depth() ==> {
                    &&& final(self).maze() == old(self).maze().insert(
                        here,
                        old(self).maze()[here].make_visited_spec(),
                    )
                    &&& (refused_tries(a1, a0.len() as int, a1.len() as int, old(self).maze(), here)
                        && final(self).position() == old(self).position()) || (a1.len() > a0.len()
                        && refused_tries(a1, a0.len() as int, a1.len() - 1, old(self).maze(), here)
                        && final(self).depth() > 0 && final(self).position() == final(self).frame(
                        final(self).depth() - 1,
                    ) && exists|d: Direction|
                        #[trigger] a1[a1.len() - 1] == (Action::Walk(Some(d)), a1.last().1)
                            && is_at(final(self).position(), next_pos(old(self).position(), d)))
                }
            },
            // a backtrack: the top frame is dropped and no position is added
            !r && final(self).depth() == old(self).depth() - 1 ==> {
                &&& forall|k: int|
                    0 <= k < final(self).depth() ==> #[trigger] final(self).frame(k)
                        == old(self).frame(k)
                &&& final(self).maze().dom() == old(self).maze().dom()
            },
    {
        if self.stack.len() == 0 {
            return true;
        }
        let (pos, mut dirs) = self.stack.pop().unwrap();
        let ghost m0 = self.map@;
        assert(self.map@.contains_key(pos)) by {
            assert(old(self).stack@[old(self).stack@.len() - 1].0 == pos);
        }
        let here = match self.map.get(pos) {
            Some(n) => n,
            None => Node::default(),
        };
        self.map.insert(pos, here.make_visited());
        assert(edges_symmetric(self.map@)) by {
            assert forall|p: Pos, d: Direction|
                #![trigger self.map@[p].neighbor(d)]
                self.map@.contains_key(p) && self.map@[p].neighbor(d) is Some implies {
                let q = self.map@[p].neighbor(d)->Some_0;
                &&& is_at(q, next_pos(p, d))
                &&& self.map@.contains_key(q)
                &&& self.map@[q].neighbor(d.opposite_spec()) == Some(p)
            } by {
                assert(m0[p].neighbor(d) == self.map@[p].neighbor(d));
                let q = m0[p].neighbor(d)->Some_0;
                assert(m0[q].neighbor(d.opposite_spec()) == Some(p));
            }
        }
        let ghost marked = self.map@;
        let ghost a0 = interactor.actions();
        assert(a0.subrange(0, a0.len() as int) =~= a0);
        assert(marked == old(self).maze().insert(pos, here.make_visited_spec()));
        assert(marked.dom() =~= old(self).maze().dom());
        assert forall|p: Pos| #[trigger] self.map@.contains_key(p) implies self.map@[p].visited by {
            if p != pos {
                assert(old(self).maze()[p] == self.map@[p]);
            }
        }
        while dirs.len() > 0
            invariant
                self.map@ == marked,
                a0 == old(interactor).actions(),
                here == old(self).maze()[pos],
                a0.len() <= interactor.actions().len(),
                interactor.actions().subrange(0, a0.len() as int) == a0,
                refused_tries(
                    interactor.actions(),
                    a0.len() as int,
                    interactor.actions().len() as int,
                    old(self).maze(),
                    pos,
                ),
                self.current_pos == old(self).current_pos,
                marked == old(self).maze().insert(pos, here.make_visited_spec()),
                marked.dom() == old(self).maze().dom(),
                old(self).stack@.last().0 == pos,
                self.map@.dom().finite(),
                forall|p: Pos| #[trigger] self.map@.contains_key(p) ==> self.map@[p].visited,
                self.map.wf(),
                edges_symmetric(self.map@),
                self.map@.contains_key(pos),
                old(self).stack@.len() > 0,
                self.stack@ == old(self).stack@.drop_last(),
                forall|k: int|
                    0 <= k < self.stack@.len() ==> self.map@.contains_key(#[trigger] self.stack@[k].0),
                forall|p: Pos| #[trigger] old(self).maze().contains_key(p) ==> self.map@.contains_key(p),
            decreases dirs.len(),
        {
            let dir = dirs.pop().unwrap();
            let next = match step_from(pos, dir) {
                Some(q) => q,
                None => {
                    continue ;
                },
            };
            let known = self.map.get(next);
            let visited = match known {
                Some(n) => n.visited,
                None => false,
            };
            if visited {
                continue ;
            }
            assert(!old(self).maze().contains_key(next)) by {
                if old(self).maze().contains_key(next) {
                    assert(self.map@.contains_key(next));
                }
            }
            assert(unknown_target(old(self).maze(), pos, dir)) by {
                assert forall|q: Pos| #[trigger] old(self).maze().contains_key(q) implies !is_at(
                    q,
                    next_pos(pos, dir),
                ) by {
                    if is_at(q, next_pos(pos, dir)) {
                        assert(q == next);
                    }
                }
            }
            let ghost acts = interactor.actions();
            let tried = interactor.try_direction(dir);
            assert(interactor.actions().subrange(0, acts.len() as int) =~= acts);
            assert(interactor.actions().subrange(0, a0.len() as int) =~= a0) by {
                assert(acts.subrange(0, a0.len() as int) == a0);
            }
            if tried {
                assert(next != pos);
                assert(!(old(self).maze().contains_key(next) && old(self).maze()[next].visited));
                assert(!self.map@.contains_key(next));
                assert(!old(self).maze().contains_key(next));
                let ghost before_link = self.map@;
                self.link(pos, dir, next);
                assert(self.map@[pos].neighbor(dir) == Some(next));
                assert(self.map@.dom() =~= old(self).maze().dom().insert(next));
                assert forall|p: Pos| #[trigger] self.map@.contains_key(p) && !self.map@[p].visited
                    implies p == next by {
                    if p != next && p != pos {
                        assert(self.map@[p] == before_link[p]);
                    }
                }
                let ghost acts2 = interactor.actions();
                interactor.walk(Some(dir), walk_duration_ms);
                assert(interactor.actions().subrange(0, a0.len() as int) =~= a0) by {
                    assert(interactor.actions().subrange(0, acts2.len() as int) =~= acts2);
                }
                assert(interactor.actions()[interactor.actions().len() - 2] == (
                    Action::TryDirection(dir),
                    true,
                ));
                assert forall|j: int|
                    a0.len() <= j < interactor.actions().len() - 2 implies (
                    #[trigger] interactor.actions()[j]).1 == false
                        && interactor.actions()[j].0 is TryDirection && unknown_target(
                        old(self).maze(),
                        pos,
                        interactor.actions()[j].0->TryDirection_0,
                    ) by {
                    assert(interactor.actions()[j] == acts[j]);
                }
                self.current_pos = next;
                self.stack.push((pos, dirs));
                self.stack.push((next, all_directions()));
                return false;
            }
            assert forall|j: int|
                a0.len() <= j < interactor.actions().len() implies (
                #[trigger] interactor.actions()[j]).1 == false
                    && interactor.actions()[j].0 is TryDirection && unknown_target(
                    old(self).maze(),
                    pos,
                    interactor.actions()[j].0->TryDirection_0,
                ) by {
                if j < acts.len() {
                    assert(interactor.actions()[j] == acts[j]);
                }
            }
        }
        let ghost acts3 = interactor.actions();
        if self.stack.len() > 0 {
            let parent = self.stack[self.stack.len() - 1].0;
            match direction_between(self.current_pos, parent) {
                Some(d) => {
                    interactor.walk(Some(d), walk_duration_ms);
                    assert(interactor.actions().subrange(0, a0.len() as int) =~= a0) by {
                        assert(interactor.actions().subrange(0, acts3.len() as int) =~= acts3);
                    }
                    assert forall|j: int|
                        a0.len() <= j < interactor.actions().len() - 1 implies (
                        #[trigger] interactor.actions()[j]).1 == false
                            && interactor.actions()[j].0 is TryDirection && unknown_target(
                            old(self).maze(),
                            pos,
                            interactor.actions()[j].0->TryDirection_0,
                        ) by {
                        assert(interactor.actions()[j] == acts3[j]);
                    }
                    self.current_pos = parent;
                    assert(interactor.actions()[interactor.actions().len() - 1] == (
                        Action::Walk(Some(d)),
                        interactor.actions().last().1,
                    ) && is_at(self.position(), next_pos(old(self).position(), d)));
                },
                None => {},
            }
        }
        false
    }

    /// Records the edge from `pos` to `next` in direction `dir`, and its
    /// inverse.
    fn link(&mut self, pos: Pos, dir: Direction, next: Pos)
        requires
            old(self).map.wf(),
            edges_symmetric(old(self).map@),
            old(self).map@.contains_key(pos),
            is_at(next, next_pos(pos, dir)),
        ensures
            final(self).map.wf(),
            edges_symmetric(final(self).map@),
            final(self).map@.contains_key(next),
            final(self).map@.dom() == old(self).map@.dom().insert(next),
            final(self).map@[pos].neighbor(dir) == Some(next),
            final(self).map@[pos] == old(self).map@[pos].with_neighbor_spec(dir, next),
            old(self).map@.contains_key(next) ==> final(self).map@[next]
                == old(self).map@[next].with_neighbor_spec(dir.opposite_spec(), pos),
            !old(self).map@.contains_key(next) ==> final(self).map@[next]
                == Node::default_spec().with_neighbor_spec(dir.opposite_spec(), pos),
            forall|p: Pos| p != pos && p != next ==> #[trigger] final(self).map@[p] == old(self).map@[p],
            final(self).stack == old(self).stack,
            final(self).current_pos == old(self).current_pos,
    {
        let ghost m0 = self.map@;
        let here = match self.map.get(pos) {
            Some(n) => n,
            None => Node::default(),
        };
        let there = match self.map.get(next) {
            Some(n) => n,
            None => Node::default(),
        };
        self.map.insert(pos, here.with_neighbor(dir, next));
        self.map.insert(next, there.with_neighbor(dir.opposite(), pos));
        let ghost m2 = self.map@;
        assert(pos != next);
        assert(m2.dom() =~= m0.dom().insert(next));
        assert forall|p: Pos, d: Direction|
            #![trigger m2[p].neighbor(d)]
            m2.contains_key(p) && m2[p].neighbor(d) is Some implies {
            let q = m2[p].neighbor(d)->Some_0;
            &&& is_at(q, next_pos(p, d))
            &&& m2.contains_key(q)
            &&& m2[q].neighbor(d.opposite_spec()) == Some(p)
        } by {
            if p == next {
                if d != dir.opposite_spec() {
                    assert(m2[p].neighbor(d) == there.neighbor(d));
                    if m0.contains_key(next) {
                        assert(m0[next].neighbor(d) is Some);
                    }
                }
            } else if p == pos {
                if d != dir {
                    assert(m2[p].neighbor(d) == m0[p].neighbor(d));
                    assert(m0[p].neighbor(d) is Some);
                }
            } else {
                assert(m2[p] == m0[p]);
                assert(m0[p].neighbor(d) is Some);
            }
        }
    }
}

/// No known position lies one step from `p` towards `d`.
pub open spec fn unknown_target(m: Map<Pos, Node>, p: Pos, d: Direction) -> bool {
    forall|q: Pos| #[trigger] m.contains_key(q) ==> !is_at(q, next_pos(p, d))
}

/// Entries `from` to `to` of `acts` are tries from `p` that were refused,
/// each towards a position unknown in `m`.
pub open spec fn refused_tries(
    acts: Seq<(Action, bool)>,
    from: int,
    to: int,
    m: Map<Pos, Node>,
    p: Pos,
) -> bool {
    forall|j: int|
        from <= j < to ==> (#[trigger] acts[j]).1 == false && acts[j].0 is TryDirection
            && unknown_target(m, p, acts[j].0->TryDirection_0)
}

/// In every well-formed solver each recorded edge leads one step in its
/// direction to a known position whose node records the opposite edge.
pub proof fn lemma_edges_symmetric(s: Solver)
    requires
        s.wf(),
    ensures
        edges_symmetric(s.maze()),
{
}

/// Once no frame is left, every discovered position has been visited.
pub proof fn lemma_finished_all_visited(s: Solver)
    requires
        s.wf(),
        s.depth() == 0,
    ensures
        forall|p: Pos| #[trigger] s.maze().contains_key(p) ==> s.maze()[p].visited,
{
}

/// Termination: while the discovered positions stay within a finite set
/// `bound` of positions, every step that does not finish lowers `progress`
/// by one and `progress` stays non-negative, so at most `2 * |bound| + 1`
/// steps come before the one that reports the end.
pub proof fn lemma_step_progress(before: Solver, after: Solver, bound: Set<Pos>)
    requires
        before.wf(),
        after.wf(),
        bound.finite(),
        before.maze().dom().subset_of(bound),
        after.maze().dom().subset_of(bound),
        Solver::steps_to(before, after),
    ensures
        after.progress(bound.len()) == before.progress(bound.len()) - 1,
        after.progress(bound.len()) >= 0,
{
    vstd::set_lib::lemma_len_subset(after.maze().dom(), bound);
    vstd::set_lib::lemma_len_subset(before.maze().dom(), bound);
    if after.depth() == before.depth() + 1 {
        assert(after.maze().dom().len() == before.maze().dom().len() + 1);
    }
}

impl Node {
    pub open spec fn default_spec() -> Node {
        Node { visited: false, left: None, right: None, up: None, down: None }
    }
}

} // verus!
