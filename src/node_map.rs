use vstd::prelude::*;

use crate::maze_solver::{Node, Pos};

verus! {

/// The map that a list of `(position, node)` entries stands for, later
/// entries overriding earlier ones.
pub open spec fn nodes_of(s: Seq<(Pos, Node)>) -> Map<Pos, Node>
    decreases s.len(),
{
    if s.len() == 0 {
        Map::empty()
    } else {
        nodes_of(s.drop_last()).insert(s.last().0, s.last().1)
    }
}

/// No two entries carry the same position.
pub open spec fn positions_unique(s: Seq<(Pos, Node)>) -> bool {
    forall|i: int, j: int| 0 <= i < j < s.len() ==> #[trigger] s[i].0 != #[trigger] s[j].0
}

proof fn lemma_absent(s: Seq<(Pos, Node)>, k: Pos)
    requires
        forall|i: int| 0 <= i < s.len() ==> #[trigger] s[i].0 != k,
    ensures
        !nodes_of(s).contains_key(k),
    decreases s.len(),
{
    if s.len() > 0 {
        assert(s.last() == s[s.len() - 1]);
        lemma_absent(s.drop_last(), k);
    }
}

proof fn lemma_at(s: Seq<(Pos, Node)>, i: int)
    requires
        positions_unique(s),
        0 <= i < s.len(),
    ensures
        nodes_of(s).contains_key(s[i].0),
        nodes_of(s)[s[i].0] == s[i].1,
    decreases s.len(),
{
    if i < s.len() - 1 {
        let d = s.drop_last();
        assert(d[i] == s[i]);
        assert(s[i].0 != s[s.len() - 1].0);
        lemma_at(d, i);
    }
}

proof fn lemma_present(s: Seq<(Pos, Node)>, k: Pos)
    requires
        nodes_of(s).contains_key(k),
    ensures
        exists|i: int| 0 <= i < s.len() && #[trigger] s[i].0 == k,
    decreases s.len(),
{
    if s.len() > 0 {
        if s.last().0 != k {
            lemma_present(s.drop_last(), k);
            let i = choose|i: int| 0 <= i < s.len() - 1 && #[trigger] s.drop_last()[i].0 == k;
            assert(s[i].0 == k);
        } else {
            assert(s[s.len() - 1].0 == k);
        }
    }
}

proof fn lemma_len(s: Seq<(Pos, Node)>)
    requires
        positions_unique(s),
    ensures
        nodes_of(s).dom().finite(),
        nodes_of(s).dom().len() == s.len(),
    decreases s.len(),
{
    if s.len() > 0 {
        let d = s.drop_last();
        assert forall|i: int| 0 <= i < d.len() implies #[trigger] d[i].0 != s.last().0 by {
            assert(d[i] == s[i]);
        }
        lemma_len(d);
        lemma_absent(d, s.last().0);
    }
}

proof fn lemma_update(s: Seq<(Pos, Node)>, i: int, e: (Pos, Node))
    requires
        positions_unique(s),
        0 <= i < s.len(),
        e.0 == s[i].0,
    ensures
        positions_unique(s.update(i, e)),
        nodes_of(s.update(i, e)) == nodes_of(s).insert(e.0, e.1),
    decreases s.len(),
{
    let u = s.update(i, e);
    assert forall|a: int, b: int| 0 <= a < b < u.len() implies #[trigger] u[a].0
        != #[trigger] u[b].0 by {
        assert(u[a].0 == s[a].0 && u[b].0 == s[b].0);
    }
    if i == s.len() - 1 {
        assert(u.drop_last() =~= s.drop_last());
        assert(nodes_of(u) =~= nodes_of(s).insert(e.0, e.1));
    } else {
        let d = s.drop_last();
        assert(u.drop_last() =~= d.update(i, e));
        assert(d[i] == s[i]);
        lemma_update(d, i, e);
        assert(s[i].0 != s[s.len() - 1].0);
        assert(nodes_of(u) =~= nodes_of(s).insert(e.0, e.1));
    }
}

/// The discovered part of a maze: a node for each known position.
#[derive(Debug, Clone)]
pub struct NodeMap {
    entries: Vec<(Pos, Node)>,
}

impl View for NodeMap {
    type V = Map<Pos, Node>;

    closed spec fn view(&self) -> Map<Pos, Node> {
        nodes_of(self.entries@)
    }
}

impl NodeMap {
    pub closed spec fn wf(&self) -> bool {
        positions_unique(self.entries@)
    }

    /// Checks that no position occurs twice.
    pub fn is_wf(&self) -> (r: bool)
        ensures
            r == self.wf(),
    {
        let n = self.entries.len();
        let mut i: usize = 0;
        while i < n
            invariant
                n == self.entries@.len(),
                0 <= i <= n,
                forall|a: int, b: int|
                    0 <= a < i && a < b < n ==> #[trigger] self.entries@[a].0
                        != #[trigger] self.entries@[b].0,
            decreases n - i,
        {
            let mut j: usize = i + 1;
            while j < n
                invariant
                    n == self.entries@.len(),
                    0 <= i < n,
                    i + 1 <= j <= n,
                    forall|a: int, b: int|
                        0 <= a < i && a < b < n ==> #[trigger] self.entries@[a].0
                            != #[trigger] self.entries@[b].0,
                    forall|b: int| i < b < j ==> self.entries@[i as int].0 != #[trigger] self.entries@[b].0,
                decreases n - j,
            {
                let p = self.entries[i].0;
                let q = self.entries[j].0;
                if p.0 == q.0 && p.1 == q.1 {
                    return false;
                }
                j += 1;
            }
            i += 1;
        }
        true
    }

    pub fn new() -> (r: NodeMap)
        ensures
            r.wf(),
            r@ == Map::<Pos, Node>::empty(),
    {
        NodeMap { entries: Vec::new() }
    }

    /// The node at `pos`, if known.
    pub fn get(&self, pos: Pos) -> (r: Option<Node>)
        requires
            self.wf(),
        ensures
            r == (if self@.contains_key(pos) {
                Some(self@[pos])
            } else {
                None
            }),
    {
        let mut i: usize = 0;
        while i < self.entries.len()
            invariant
                0 <= i <= self.entries@.len(),
                positions_unique(self.entries@),
                forall|j: int| 0 <= j < i ==> #[trigger] self.entries@[j].0 != pos,
            decreases self.entries.len() - i,
        {
            let e = self.entries[i];
            if e.0.0 == pos.0 && e.0.1 == pos.1 {
                proof {
                    lemma_at(self.entries@, i as int);
                }
                return Some(e.1);
            }
            i += 1;
        }
        proof {
            lemma_absent(self.entries@, pos);
        }
        None
    }

    /// Sets the node at `pos`.
    pub fn insert(&mut self, pos: Pos, node: Node)
        requires
            old(self).wf(),
        ensures
            final(self).wf(),
            final(self)@ == old(self)@.insert(pos, node),
    {
        let mut i: usize = 0;
        while i < self.entries.len()
            invariant
                0 <= i <= self.entries@.len(),
                self.entries@ == old(self).entries@,
                positions_unique(self.entries@),
                forall|j: int| 0 <= j < i ==> #[trigger] self.entries@[j].0 != pos,
            decreases self.entries.len() - i,
        {
            let e = self.entries[i];
            if e.0.0 == pos.0 && e.0.1 == pos.1 {
                proof {
                    lemma_update(self.entries@, i as int, (pos, node));
                }
                self.entries.set(i, (pos, node));
                return;
            }
            i += 1;
        }
        let ghost before = self.entries@;
        self.entries.push((pos, node));
        assert(self.entries@.drop_last() =~= before);
        assert forall|a: int, b: int| 0 <= a < b < self.entries@.len() implies #[trigger] self.entries@[a].0
            != #[trigger] self.entries@[b].0 by {
            if b == self.entries@.len() - 1 {
                assert(before[a] == self.entries@[a]);
            } else {
                assert(before[a] == self.entries@[a] && before[b] == self.entries@[b]);
            }
        }
    }

    /// Number of known positions.
    pub fn len(&self) -> (r: usize)
        requires
            self.wf(),
        ensures
            self@.dom().finite(),
            r == self@.dom().len(),
    {
        proof {
            lemma_len(self.entries@);
        }
        self.entries.len()
    }

    /// Whether every known position has been visited.
    pub fn all_visited(&self) -> (r: bool)
        requires
            self.wf(),
        ensures
            r == (forall|p: Pos| #[trigger] self@.contains_key(p) ==> self@[p].visited),
    {
        let mut i: usize = 0;
        while i < self.entries.len()
            invariant
                0 <= i <= self.entries@.len(),
                positions_unique(self.entries@),
                forall|j: int| 0 <= j < i ==> (#[trigger] self.entries@[j]).1.visited,
            decreases self.entries.len() - i,
        {
            if !self.entries[i].1.visited {
                proof {
                    lemma_at(self.entries@, i as int);
                }
                return false;
            }
            i += 1;
        }
        assert forall|p: Pos| #[trigger] self@.contains_key(p) implies self@[p].visited by {
            lemma_present(self.entries@, p);
            let j = choose|j: int| 0 <= j < self.entries@.len() && #[trigger] self.entries@[j].0 == p;
            lemma_at(self.entries@, j);
            assert(self.entries@[j].1.visited);
        }
        true
    }
}

} // verus!
