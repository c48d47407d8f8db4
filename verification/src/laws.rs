//! The laws of the broadcast service, stated over the spec functions its
//! contracts use and proved once for all inputs.

use vstd::prelude::*;

use crate::broadcast::accept;
use crate::broadcast::neighbours_of;
use crate::broadcast::set_topology;

verus! {

/// The store after a whole sequence of `broadcast` deliveries, first to
/// last.
pub open spec fn accept_all(store: Seq<i32>, vs: Seq<i32>) -> Seq<i32>
    decreases vs.len(),
{
    if vs.len() == 0 {
        store
    } else {
        accept_all(accept(store, vs[0]), vs.drop_first())
    }
}

/// Law: broadcast delivery is idempotent. After one delivery of `v` the
/// store holds `v`, so every later delivery of `v` takes the duplicate
/// branch of `broadcast_step` — the store stays as it is and nothing is
/// fanned out or acknowledged. In a store without duplicates, `v` occurs
/// exactly once however many times it is delivered.
pub proof fn lemma_broadcast_idempotent(store: Seq<i32>, v: i32)
    ensures
        accept(store, v).contains(v),
        accept(accept(store, v), v) == accept(store, v),
        store.no_duplicates() ==> accept(store, v).no_duplicates(),
        store.no_duplicates() ==> accept(store, v).to_multiset().count(v) == 1,
{
    store.to_multiset_ensures();
    if store.contains(v) {
        if store.no_duplicates() {
            store.lemma_multiset_has_no_duplicates();
        }
    } else {
        assert(accept(store, v)[store.len() as int] == v);
        if store.no_duplicates() {
            assert forall|i: int, j: int|
                0 <= i < accept(store, v).len() && 0 <= j < accept(store, v).len() && i != j
                implies accept(store, v)[i] != accept(store, v)[j] by {
                if i == store.len() {
                    assert(accept(store, v)[j] == store[j]);
                } else if j == store.len() {
                    assert(accept(store, v)[i] == store[i]);
                }
            }
        }
    }
}

/// Law: a store without duplicates never acquires one, however many
/// deliveries arrive; so a node that starts empty holds each accepted value
/// exactly once for its whole run.
pub proof fn lemma_store_no_duplicates(store: Seq<i32>, vs: Seq<i32>)
    requires
        store.no_duplicates(),
    ensures
        accept_all(store, vs).no_duplicates(),
    decreases vs.len(),
{
    if vs.len() > 0 {
        lemma_broadcast_idempotent(store, vs[0]);
        lemma_store_no_duplicates(accept(store, vs[0]), vs.drop_first());
    }
}

/// The set a store denotes after one delivery: the prior set with `v`
/// added (which adds nothing when `v` was already there).
pub proof fn lemma_accept_to_set(store: Seq<i32>, v: i32)
    ensures
        accept(store, v).to_set() == store.to_set().insert(v),
{
    if store.contains(v) {
        assert(store.to_set() =~= store.to_set().insert(v));
    } else {
        store.lemma_push_to_set_commute(v);
        assert(store.push(v).to_set() =~= store.to_set().insert(v));
    }
}

/// Law: reads are complete. After any sequence of accepted `broadcast`
/// deliveries `vs`, duplicates allowed, the store holds exactly the values
/// of `vs` together with what it held before — no omissions, no extras.
/// A `read` request answers with the store verbatim, so its reply denotes
/// this very set.
pub proof fn lemma_read_completeness(store: Seq<i32>, vs: Seq<i32>)
    ensures
        accept_all(store, vs).to_set() == store.to_set().union(vs.to_set()),
    decreases vs.len(),
{
    if vs.len() == 0 {
        assert(store.to_set().union(vs.to_set()) =~= store.to_set());
    } else {
        lemma_accept_to_set(store, vs[0]);
        lemma_read_completeness(accept(store, vs[0]), vs.drop_first());
        assert(vs.to_set() =~= vs.drop_first().to_set().insert(vs[0])) by {
            assert forall|x: i32| vs.to_set().contains(x)
                implies vs.drop_first().to_set().insert(vs[0]).contains(x) by {
                let i = choose|i: int| 0 <= i < vs.len() && vs[i] == x;
                if i != 0 {
                    assert(vs.drop_first()[i - 1] == x);
                }
            }
            assert forall|x: i32| vs.drop_first().to_set().insert(vs[0]).contains(x)
                implies vs.to_set().contains(x) by {
                if x == vs[0] {
                    assert(vs[0] == x);
                } else {
                    let i = choose|i: int| 0 <= i < vs.drop_first().len() && vs.drop_first()[i]
                        == x;
                    assert(vs[i + 1] == x);
                }
            }
        }
        assert(accept_all(store, vs).to_set() =~= store.to_set().union(vs.to_set()));
    }
}

/// Law: a node that starts empty and accepts the deliveries `vs` stores
/// exactly the set of delivered values.
pub proof fn lemma_read_after_broadcasts(vs: Seq<i32>)
    ensures
        accept_all(Seq::empty(), vs).to_set() == vs.to_set(),
{
    lemma_read_completeness(Seq::empty(), vs);
    assert(Seq::<i32>::empty().to_set().union(vs.to_set()) =~= vs.to_set());
}

/// Law: topology replacement is wholesale. After a second `topology`
/// request the map is the second one alone, and fan-out from any node uses
/// only the second map's neighbour lists — never a union with or a remnant
/// of the first.
pub proof fn lemma_topology_replace(
    t0: Map<Seq<char>, Seq<Seq<char>>>,
    t1: Map<Seq<char>, Seq<Seq<char>>>,
    t2: Map<Seq<char>, Seq<Seq<char>>>,
    node: Seq<char>,
)
    ensures
        set_topology(set_topology(t0, t1), t2) == t2,
        neighbours_of(set_topology(set_topology(t0, t1), t2), node) == neighbours_of(t2, node),
{
}

/// The counter after a number of handled messages: every call of
/// `handle_message` advances it by exactly one.
pub open spec fn counter_after(c: nat, calls: nat) -> nat
    decreases calls,
{
    if calls == 0 {
        c
    } else {
        counter_after(c, (calls - 1) as nat) + 1
    }
}

pub proof fn lemma_counter_after(c: nat, calls: nat)
    ensures
        counter_after(c, calls) == c + calls,
    decreases calls,
{
    if calls > 0 {
        lemma_counter_after(c, (calls - 1) as nat);
    }
}

/// Law: assigned message ids are strictly increasing. A reply produced by a
/// call of `handle_message` carries the counter value the call started
/// with, and each call advances the counter by one; so the id assigned in
/// an earlier call is strictly below the id assigned in any later call, and
/// no id is ever reused. The reserved 0 of the handshake reply is below the
/// starting counter 1 and so collides with none of them.
pub proof fn lemma_monotonic_ids(c: nat, earlier: nat, later: nat)
    requires
        earlier < later,
    ensures
        counter_after(c, earlier) < counter_after(c, later),
{
    lemma_counter_after(c, earlier);
    lemma_counter_after(c, later);
}

} // verus!
