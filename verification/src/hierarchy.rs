use vstd::prelude::*;

use std::collections::HashMap;

verus! {

broadcast use vstd::std_specs::hash::group_hash_axioms;

/// The `k`-th ancestor of `e` under the child-to-parent map `parents`
/// (`e` itself for `k == 0`), if the chain reaches that far.
pub open spec fn ancestor(parents: Map<u64, u64>, e: u64, k: nat) -> Option<u64>
    decreases k,
{
    if k == 0 {
        Some(e)
    } else {
        match ancestor(parents, e, (k - 1) as nat) {
            Some(a) => if parents.contains_key(a) {
                Some(parents[a])
            } else {
                None
            },
            None => None,
        }
    }
}

/// Once the chain of ancestors ends, it stays ended.
proof fn lemma_ancestor_ends(parents: Map<u64, u64>, e: u64, k: nat, m: nat)
    requires
        k <= m,
        ancestor(parents, e, k) is None,
    ensures
        ancestor(parents, e, m) is None,
    decreases m - k,
{
    if k < m {
        lemma_ancestor_ends(parents, e, k, (m - 1) as nat);
    }
}

/// The ancestors of `start`, nearest first: parent, grandparent and so on, at most
/// as many generations as `parents` has entries (every chain of a hierarchy
/// without cycles ends within that many).
pub fn ancestor_chain(start: u64, parents: &HashMap<u64, u64>) -> (r: Vec<u64>)
    ensures
        r@.len() <= parents@.len(),
        forall|i: int| 0 <= i < r@.len() ==> ancestor(parents@, start, (i + 1) as nat) == Some(#[trigger] r@[i]),
        r@.len() < parents@.len() ==> ancestor(parents@, start, (r@.len() + 1) as nat) is None,
{
    let bound = parents.len();
    let mut chain: Vec<u64> = Vec::new();
    let mut current = start;
    while chain.len() < bound
        invariant
            bound == parents@.len(),
            chain@.len() <= bound,
            ancestor(parents@, start, chain@.len() as nat) == Some(current),
            forall|i: int| 0 <= i < chain@.len() ==> ancestor(parents@, start, (i + 1) as nat) == Some(#[trigger] chain@[i]),
        decreases bound - chain@.len(),
    {
        match parents.get(&current) {
            Some(p) => {
                current = *p;
                chain.push(current);
            },
            None => {
                return chain;
            },
        }
    }
    chain
}

/// `k` is the first position in `chain` of an entity that `markers` holds.
pub open spec fn is_first_marked(chain: Seq<u64>, markers: Map<u64, String>, k: int) -> bool {
    &&& 0 <= k < chain.len()
    &&& markers.contains_key(chain[k])
    &&& forall|j: int| 0 <= j < k ==> !markers.contains_key(chain[j])
}

/// The model path marker of the nearest entity of `chain` that has one.
pub fn first_marked(chain: &Vec<u64>, markers: &HashMap<u64, String>) -> (r: Option<String>)
    ensures
        match r {
            Some(path) => exists|k: int| is_first_marked(chain@, markers@, k) && path == markers@[chain@[k]],
            None => forall|k: int| 0 <= k < chain@.len() ==> !markers@.contains_key(#[trigger] chain@[k]),
        },
{
    let mut i: usize = 0;
    while i < chain.len()
        invariant
            i <= chain@.len(),
            forall|j: int| 0 <= j < i ==> !markers@.contains_key(#[trigger] chain@[j]),
        decreases chain@.len() - i,
    {
        match markers.get(&chain[i]) {
            Some(path) => {
                let r = path.clone();
                assert(is_first_marked(chain@, markers@, i as int));
                return Some(r);
            },
            None => {},
        }
        i = i + 1;
    }
    None
}

/// The model path of the nearest ancestor of `start` that carries a model path marker.
pub fn find_model_path(start: u64, parents: &HashMap<u64, u64>, markers: &HashMap<u64, String>) -> (r: Option<String>)
    ensures
        match r {
            Some(path) => exists|k: nat| 1 <= k <= parents@.len() && {
                &&& #[trigger] ancestor(parents@, start, k) matches Some(a)
                &&& markers@.contains_key(a)
                &&& path == markers@[a]
                &&& forall|m: nat| 1 <= m < k ==> (#[trigger] ancestor(parents@, start, m) matches Some(b)
                    && !markers@.contains_key(b))
            },
            None => forall|k: nat| 1 <= k <= parents@.len() ==> !(#[trigger] ancestor(parents@, start, k) matches Some(a)
                && markers@.contains_key(a)),
        },
{
    let chain = ancestor_chain(start, parents);
    let r = first_marked(&chain, markers);
    proof {
        match &r {
            Some(path) => {
                let k = choose|k: int| is_first_marked(chain@, markers@, k) && *path == markers@[chain@[k]];
                assert(ancestor(parents@, start, (k + 1) as nat) == Some(chain@[k]));
                assert forall|m: nat| 1 <= m < k + 1 implies (#[trigger] ancestor(parents@, start, m) matches Some(b)
                    && !markers@.contains_key(b)) by {
                    assert(ancestor(parents@, start, ((m - 1) + 1) as nat) == Some(chain@[m - 1]));
                }
                assert(1 <= k + 1 <= parents@.len());
            },
            None => {
                assert forall|k: nat| 1 <= k <= parents@.len() implies !(#[trigger] ancestor(parents@, start, k) matches Some(a)
                    && markers@.contains_key(a)) by {
                    if k <= chain@.len() {
                        assert(ancestor(parents@, start, ((k - 1) + 1) as nat) == Some(chain@[k - 1]));
                    } else {
                        lemma_ancestor_ends(parents@, start, (chain@.len() + 1) as nat, k);
                    }
                }
            },
        }
    }
    r
}

/// No entity is its own ancestor.
pub open spec fn acyclic(parents: Map<u64, u64>) -> bool {
    forall|e: u64, k: nat| k >= 1 ==> #[trigger] ancestor(parents, e, k) != Some(e)
}

/// Going up `i` generations and then `m` more is going up `i + m`.
proof fn lemma_ancestor_compose(parents: Map<u64, u64>, e: u64, i: nat, m: nat)
    ensures
        ancestor(parents, e, i + m) == (match ancestor(parents, e, i) {
            Some(a) => ancestor(parents, a, m),
            None => None,
        }),
    decreases m,
{
    if m > 0 {
        lemma_ancestor_compose(parents, e, i, (m - 1) as nat);
        assert((i + m - 1) as nat == i + (m - 1) as nat);
    } else {
        assert(i + m == i);
    }
}

/// In a hierarchy without cycles the ancestors of an entity are all different.
proof fn lemma_ancestors_distinct(parents: Map<u64, u64>, e: u64, i: nat, j: nat)
    requires
        acyclic(parents),
        i < j,
        ancestor(parents, e, j) is Some,
    ensures
        ancestor(parents, e, i) is Some,
        ancestor(parents, e, i) != ancestor(parents, e, j),
{
    if ancestor(parents, e, i) is None {
        lemma_ancestor_ends(parents, e, i, j);
    }
    let a = ancestor(parents, e, i)->0;
    lemma_ancestor_compose(parents, e, i, (j - i) as nat);
    assert(i + (j - i) as nat == j);
    assert(ancestor(parents, a, (j - i) as nat) != Some(a));
}

/// The first `m` generations (the entity itself included) as a set.
spec fn generations(parents: Map<u64, u64>, e: u64, m: nat) -> Set<u64> {
    Set::new(|a: u64| exists|k: nat| k < m && ancestor(parents, e, k) == Some(a))
}

proof fn lemma_generations_len(parents: Map<u64, u64>, e: u64, m: nat, last: nat)
    requires
        acyclic(parents),
        m <= last,
        ancestor(parents, e, last) is Some,
    ensures
        generations(parents, e, m).finite(),
        generations(parents, e, m).len() == m,
        m < last ==> generations(parents, e, m + 1).subset_of(parents.dom()),
        forall|a: u64| #[trigger] generations(parents, e, m).contains(a) ==> parents.dom().contains(a),
    decreases m,
{
    if m == 0 {
        assert(generations(parents, e, 0) =~= Set::<u64>::empty());
    } else {
        lemma_generations_len(parents, e, (m - 1) as nat, last);
        let prev = generations(parents, e, (m - 1) as nat);
        lemma_ancestors_distinct(parents, e, (m - 1) as nat, last);
        let a = ancestor(parents, e, (m - 1) as nat)->0;
        assert(generations(parents, e, m) =~= prev.insert(a));
        assert(!prev.contains(a)) by {
            if prev.contains(a) {
                let k = choose|k: nat| k < m - 1 && ancestor(parents, e, k) == Some(a);
                lemma_ancestors_distinct(parents, e, k, (m - 1) as nat);
            }
        }
    }
    assert forall|a: u64| #[trigger] generations(parents, e, m).contains(a) implies parents.dom().contains(a) by {
        let k = choose|k: nat| k < m && ancestor(parents, e, k) == Some(a);
        if ancestor(parents, e, k + 1) is None {
            lemma_ancestor_ends(parents, e, k + 1, last);
        }
    }
    if m < last {
        assert forall|a: u64| #[trigger] generations(parents, e, m + 1).contains(a) implies parents.dom().contains(a) by {
            let k = choose|k: nat| k < m + 1 && ancestor(parents, e, k) == Some(a);
            if ancestor(parents, e, k + 1) is None {
                lemma_ancestor_ends(parents, e, k + 1, last);
            }
        }
    }
}

/// In a hierarchy without cycles, every chain of ancestors ends within as many
/// generations as the hierarchy has parent links, so the bounded walk of
/// `ancestor_chain` sees every ancestor.
pub proof fn lemma_acyclic_chain_ends(parents: Map<u64, u64>, e: u64)
    requires
        parents.dom().finite(),
        acyclic(parents),
    ensures
        ancestor(parents, e, parents.len() + 1) is None,
{
    let n = parents.len();
    if ancestor(parents, e, n + 1) is Some {
        lemma_generations_len(parents, e, n + 1, n + 1);
        assert(generations(parents, e, n + 1).subset_of(parents.dom()));
        vstd::set_lib::lemma_len_subset(generations(parents, e, n + 1), parents.dom());
    }
}

} // verus!
