//! The topology map: node id to its ordered list of neighbours, stored as an
//! association list and viewed as a mathematical `Map`. A later entry for the
//! same key shadows an earlier one, so insertion is a plain push.

use vstd::prelude::*;

verus! {

/// A map from a node id to the ordered neighbour list used for fan-out.
/// Arrives wholesale in a `topology` request and replaces whatever stood
/// before.
pub struct Topology {
    entries: Vec<(String, Vec<String>)>,
}

/// The mathematical map an entry list denotes: later entries win.
spec fn map_of(entries: Seq<(String, Vec<String>)>) -> Map<Seq<char>, Seq<Seq<char>>>
    decreases entries.len(),
{
    if entries.len() == 0 {
        Map::empty()
    } else {
        map_of(entries.drop_last()).insert(entries.last().0@, entries.last().1.deep_view())
    }
}

impl View for Topology {
    type V = Map<Seq<char>, Seq<Seq<char>>>;

    closed spec fn view(&self) -> Map<Seq<char>, Seq<Seq<char>>> {
        map_of(self.entries@)
    }
}

/// A key is in the denoted map exactly when some entry carries it.
proof fn lemma_map_of_dom(entries: Seq<(String, Vec<String>)>, key: Seq<char>)
    ensures
        map_of(entries).dom().contains(key) <==> exists|i: int|
            0 <= i < entries.len() && #[trigger] entries[i].0@ == key,
    decreases entries.len(),
{
    if entries.len() > 0 {
        lemma_map_of_dom(entries.drop_last(), key);
        if entries.last().0@ == key {
            assert(entries[entries.len() - 1].0@ == key);
        } else if map_of(entries).dom().contains(key) {
            let i = choose|i: int| 0 <= i < entries.drop_last().len()
                && #[trigger] entries.drop_last()[i].0@ == key;
            assert(entries[i].0@ == key);
        } else {
            assert forall|i: int| 0 <= i < entries.len() implies #[trigger] entries[i].0@ != key by {
                if i < entries.len() - 1 {
                    assert(entries.drop_last()[i].0@ == entries[i].0@);
                }
            }
        }
    }
}

/// The value the denoted map gives a key is the one of the last entry that
/// carries that key.
proof fn lemma_map_of_last_match(entries: Seq<(String, Vec<String>)>, i: int)
    requires
        0 <= i < entries.len(),
        forall|j: int| i < j < entries.len() ==> #[trigger] entries[j].0@ != entries[i].0@,
    ensures
        map_of(entries).dom().contains(entries[i].0@),
        map_of(entries)[entries[i].0@] == entries[i].1.deep_view(),
    decreases entries.len(),
{
    if i == entries.len() - 1 {
    } else {
        assert(entries.drop_last()[i] == entries[i]);
        assert forall|j: int| i < j < entries.drop_last().len()
            implies #[trigger] entries.drop_last()[j].0@ != entries.drop_last()[i].0@ by {
            assert(entries.drop_last()[j] == entries[j]);
        }
        lemma_map_of_last_match(entries.drop_last(), i);
    }
}

impl Topology {
    /// The empty topology: no node has neighbours until a `topology` request
    /// supplies them.
    pub fn new() -> (t: Topology)
        ensures
            t@ == Map::<Seq<char>, Seq<Seq<char>>>::empty(),
    {
        Topology { entries: Vec::new() }
    }

    /// Record the neighbour list of one node, shadowing any earlier list for
    /// the same node.
    pub fn insert(&mut self, key: String, neighbours: Vec<String>)
        ensures
            final(self)@ == old(self)@.insert(key@, neighbours.deep_view()),
    {
        let ghost pre = self.entries@;
        self.entries.push((key, neighbours));
        proof {
            assert(self.entries@.drop_last() =~= pre);
        }
    }

    /// Look a node's neighbour list up; `None` when the node has no entry.
    pub fn get(&self, key: &String) -> (r: Option<&Vec<String>>)
        ensures
            match r {
                Some(nbrs) => self@.dom().contains(key@) && nbrs.deep_view()
                    == self@[key@],
                None => !self@.dom().contains(key@),
            },
    {
        let n: usize = self.entries.len();
        let mut i: usize = n;
        while i > 0
            invariant
                i <= n,
                n == self.entries@.len(),
                forall|j: int| i <= j < n ==> #[trigger] self.entries@[j].0@ != key@,
            decreases i,
        {
            i = i - 1;
            if self.entries[i].0 == *key {
                proof {
                    lemma_map_of_last_match(self.entries@, i as int);
                }
                return Some(&self.entries[i].1);
            }
        }
        proof {
            lemma_map_of_dom(self.entries@, key@);
        }
        None
    }
}

} // verus!
