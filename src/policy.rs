use vstd::prelude::*;
use crate::address::Endpoint;
use crate::command::NetworkCommand;

verus! {

/// How a node reacts to peers found by discovery.
#[derive(Debug, Clone, Copy, PartialEq, Eq, Structural)]
pub enum DialPolicy {
    /// Dial every newly found address at once.
    Automatic,
    /// Dial nothing; an outside decision point enqueues dial commands later.
    Manual,
}

/// The pairs of `s` in order of first occurrence, each once.
pub open spec fn first_occurrences<A>(s: Seq<A>) -> Seq<A>
    decreases s.len(),
{
    if s.len() == 0 {
        Seq::empty()
    } else {
        let rest = first_occurrences(s.drop_last());
        if s.drop_last().contains(s.last()) {
            rest
        } else {
            rest.push(s.last())
        }
    }
}

/// The (peer, address) pairs that `policy` dials for one discovery report.
pub open spec fn planned_pairs(policy: DialPolicy, found: Seq<(Seq<u8>, Seq<u8>)>) -> Seq<(Seq<u8>, Seq<u8>)> {
    match policy {
        DialPolicy::Automatic => first_occurrences(found),
        DialPolicy::Manual => Seq::empty(),
    }
}

/// Whether `cmds` dials, one for one and in order, the addresses of `pairs`.
pub open spec fn dials_for(cmds: Seq<NetworkCommand>, pairs: Seq<(Seq<u8>, Seq<u8>)>) -> bool {
    &&& cmds.len() == pairs.len()
    &&& forall|i: int| 0 <= i < cmds.len() ==> #[trigger] cmds[i].target() == pairs[i].1
}

proof fn lemma_first_occurrences_facts<A>(s: Seq<A>)
    ensures
        first_occurrences(s).no_duplicates(),
        first_occurrences(s).to_set() == s.to_set(),
        forall|x: A| #[trigger] first_occurrences(s).contains(x) <==> s.contains(x),
    decreases s.len(),
{
    if s.len() > 0 {
        let p = s.drop_last();
        lemma_first_occurrences_facts(p);
        let rest = first_occurrences(p);
        assert(s == p.push(s.last()));
        assert forall|x: A| s.contains(x) <==> (p.contains(x) || x == s.last()) by {
            if s.contains(x) {
                let i = choose|i: int| 0 <= i < s.len() && s[i] == x;
                if i < p.len() {
                    assert(p[i] == x);
                }
            }
            if p.contains(x) {
                let i = choose|i: int| 0 <= i < p.len() && p[i] == x;
                assert(s[i] == x);
            }
            if x == s.last() {
                assert(s[s.len() - 1] == x);
            }
        }
        if !p.contains(s.last()) {
            let r2 = rest.push(s.last());
            assert forall|x: A| r2.contains(x) <==> (rest.contains(x) || x == s.last()) by {
                if r2.contains(x) {
                    let i = choose|i: int| 0 <= i < r2.len() && r2[i] == x;
                    if i < rest.len() {
                        assert(rest[i] == x);
                    }
                }
                if rest.contains(x) {
                    let i = choose|i: int| 0 <= i < rest.len() && rest[i] == x;
                    assert(r2[i] == x);
                }
                if x == s.last() {
                    assert(r2[r2.len() - 1] == x);
                }
            }
            assert forall|i: int, j: int| 0 <= i < r2.len() && 0 <= j < r2.len() && i != j
                implies r2[i] != r2[j] by {
                if i < rest.len() && j < rest.len() {
                } else if i < rest.len() {
                    assert(rest.contains(r2[i]));
                } else if j < rest.len() {
                    assert(rest.contains(r2[j]));
                }
            }
        }
        assert(first_occurrences(s).to_set() =~= s.to_set());
    } else {
        assert(first_occurrences(s).to_set() =~= s.to_set());
    }
}

/// Every pair that a policy dials was reported, no pair is dialed twice, and
/// the automatic policy dials as many addresses as the report holds distinct
/// (peer, address) pairs.
pub proof fn lemma_dial_plan_distinct(policy: DialPolicy, found: Seq<(Seq<u8>, Seq<u8>)>)
    ensures
        planned_pairs(policy, found).no_duplicates(),
        forall|p: (Seq<u8>, Seq<u8>)| #[trigger] planned_pairs(policy, found).contains(p) ==> found.contains(p),
        policy == DialPolicy::Automatic ==> planned_pairs(policy, found).len() == found.to_set().len(),
        policy == DialPolicy::Automatic ==> planned_pairs(policy, found).to_set() == found.to_set(),
        policy == DialPolicy::Manual ==> planned_pairs(policy, found).len() == 0,
{
    lemma_first_occurrences_facts(found);
    if policy == DialPolicy::Automatic {
        first_occurrences(found).unique_seq_to_set();
    }
}

/// Whether `found[i]` already occurs before position `i`.
fn seen_before(found: &Vec<Endpoint>, i: usize) -> (r: bool)
    requires
        i < found@.len(),
    ensures
        r == found@.map_values(|p: Endpoint| p@).take(i as int).contains(found@[i as int]@),
{
    let ghost pairs = found@.map_values(|p: Endpoint| p@);
    let mut j: usize = 0;
    while j < i
        invariant
            i < found@.len(),
            j <= i,
            pairs == found@.map_values(|p: Endpoint| p@),
            forall|k: int| 0 <= k < j ==> pairs[k] != pairs[i as int],
        decreases i - j,
    {
        if found[j].same(&found[i]) {
            assert(pairs.take(i as int)[j as int] == pairs[i as int]);
            return true;
        }
        j = j + 1;
    }
    proof {
        if pairs.take(i as int).contains(pairs[i as int]) {
            let k = choose|k: int| 0 <= k < i && pairs.take(i as int)[k] == pairs[i as int];
            assert(pairs[k] == pairs[i as int]);
        }
    }
    false
}

/// The dial commands that `policy` issues for one discovery report: under the
/// automatic policy one per distinct (peer, address) pair, in order of first
/// occurrence; under the manual policy none.
pub fn plan_dials(policy: DialPolicy, found: &Vec<Endpoint>) -> (r: Vec<NetworkCommand>)
    ensures
        dials_for(r@, planned_pairs(policy, found@.map_values(|p: Endpoint| p@))),
{
    let ghost pairs = found@.map_values(|p: Endpoint| p@);
    let mut r: Vec<NetworkCommand> = Vec::new();
    if policy == DialPolicy::Manual {
        return r;
    }
    let mut i: usize = 0;
    while i < found.len()
        invariant
            i <= found@.len(),
            pairs == found@.map_values(|p: Endpoint| p@),
            dials_for(r@, first_occurrences(pairs.take(i as int))),
        decreases found@.len() - i,
    {
        let seen = seen_before(found, i);
        proof {
            assert(pairs.take(i + 1).drop_last() == pairs.take(i as int));
            assert(pairs.take(i + 1).last() == pairs[i as int]);
        }
        if !seen {
            let ghost before = r@;
            r.push(NetworkCommand::Dial(found[i].addr.duplicate()));
            proof {
                let fo = first_occurrences(pairs.take(i + 1));
                assert forall|k: int| 0 <= k < r@.len() implies #[trigger] r@[k].target() == fo[k].1 by {
                    if k < before.len() {
                        assert(r@[k] == before[k]);
                    }
                }
            }
        }
        i = i + 1;
    }
    assert(pairs.take(found@.len() as int) == pairs);
    r
}

} // verus!
