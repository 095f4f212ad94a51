//! Sequences of names, modelled as `Seq<Seq<char>>`, and the order-preserving
//! removal of repeated entries.

use vstd::prelude::*;

verus! {

/// The names held by a vector of strings, each taken by its characters.
pub open spec fn names_of(strings: Seq<String>) -> Seq<Seq<char>> {
    strings.map_values(|s: String| s@)
}

/// `s` with every entry dropped that already occurs further to the left.
///
/// What remains keeps the order in which entries first occur in `s`.
pub open spec fn first_occurrences<A>(s: Seq<A>) -> Seq<A>
    decreases s.len(),
{
    if s.len() == 0 {
        Seq::empty()
    } else {
        let kept = first_occurrences(s.drop_last());
        if kept.contains(s.last()) {
            kept
        } else {
            kept.push(s.last())
        }
    }
}

/// `p` is an initial segment of `s`.
pub open spec fn is_prefix_of<A>(p: Seq<A>, s: Seq<A>) -> bool {
    p.len() <= s.len() && s.take(p.len() as int) == p
}

/// Removing repeats neither adds nor loses a member.
pub proof fn lemma_first_occurrences_members<A>(s: Seq<A>)
    ensures
        forall|x: A| #[trigger] first_occurrences(s).contains(x) <==> s.contains(x),
    decreases s.len(),
{
    if s.len() > 0 {
        let front = s.drop_last();
        let kept = first_occurrences(front);
        let all = first_occurrences(s);
        lemma_first_occurrences_members(front);
        assert forall|x: A| #[trigger] all.contains(x) <==> s.contains(x) by {
            assert(kept.contains(x) <==> front.contains(x));
            if s.contains(x) {
                let i = choose|i: int| 0 <= i < s.len() && s[i] == x;
                if i < s.len() - 1 {
                    assert(front[i] == x);
                    assert(kept.contains(x));
                    let k = choose|k: int| 0 <= k < kept.len() && kept[k] == x;
                    assert(all[k] == x);
                } else if kept.contains(x) {
                    let k = choose|k: int| 0 <= k < kept.len() && kept[k] == x;
                    assert(all[k] == x);
                } else {
                    assert(all[kept.len() as int] == x);
                }
            }
            if all.contains(x) {
                let k = choose|k: int| 0 <= k < all.len() && all[k] == x;
                if k < kept.len() {
                    assert(kept[k] == x);
                    assert(front.contains(x));
                    let i = choose|i: int| 0 <= i < front.len() && front[i] == x;
                    assert(s[i] == x);
                } else {
                    assert(s[s.len() - 1] == x);
                }
            }
        }
    }
}

/// What is left after removing repeats holds no entry twice.
pub proof fn lemma_first_occurrences_distinct<A>(s: Seq<A>)
    ensures
        first_occurrences(s).no_duplicates(),
    decreases s.len(),
{
    if s.len() > 0 {
        lemma_first_occurrences_distinct(s.drop_last());
    }
}

/// Removing repeats never lengthens a sequence.
pub proof fn lemma_first_occurrences_len<A>(s: Seq<A>)
    ensures
        first_occurrences(s).len() <= s.len(),
    decreases s.len(),
{
    if s.len() > 0 {
        lemma_first_occurrences_len(s.drop_last());
    }
}

/// A sequence without repeats is left as it is.
pub proof fn lemma_first_occurrences_of_distinct<A>(s: Seq<A>)
    requires
        s.no_duplicates(),
    ensures
        first_occurrences(s) == s,
    decreases s.len(),
{
    if s.len() > 0 {
        let front = s.drop_last();
        lemma_first_occurrences_of_distinct(front);
        if front.contains(s.last()) {
            let i = choose|i: int| 0 <= i < front.len() && front[i] == s.last();
            assert(s[i] == s[s.len() - 1]);
        }
        assert(front.push(s.last()) =~= s);
    }
}

/// What was kept of a sequence stays in front, unchanged, when more
/// entries are appended to that sequence.
pub proof fn lemma_first_occurrences_extends<A>(a: Seq<A>, b: Seq<A>)
    ensures
        is_prefix_of(first_occurrences(a), first_occurrences(a + b)),
    decreases b.len(),
{
    if b.len() == 0 {
        let kept = first_occurrences(a);
        assert(a + b =~= a);
        assert(kept.take(kept.len() as int) =~= kept);
    } else {
        let shorter = b.drop_last();
        lemma_first_occurrences_extends(a, shorter);
        assert((a + b).drop_last() =~= a + shorter);
        let p = first_occurrences(a);
        let mid = first_occurrences(a + shorter);
        let full = first_occurrences(a + b);
        assert(full.take(p.len() as int) =~= mid.take(p.len() as int));
    }
}

/// The members of a sequence with one more entry are the members of the
/// sequence and that entry.
pub proof fn lemma_push_members<A>(s: Seq<A>, last: A)
    ensures
        forall|x: A| #[trigger] s.push(last).contains(x) <==> s.contains(x) || x == last,
{
    let longer = s.push(last);
    assert forall|x: A| #[trigger] longer.contains(x) <==> s.contains(x) || x == last by {
        if s.contains(x) {
            let i = choose|i: int| 0 <= i < s.len() && s[i] == x;
            assert(longer[i] == x);
        }
        if x == last {
            assert(longer[s.len() as int] == x);
        }
        if longer.contains(x) {
            let i = choose|i: int| 0 <= i < longer.len() && longer[i] == x;
            if i < s.len() {
                assert(s[i] == x);
            }
        }
    }
}

/// Unfolds [`first_occurrences`] at the last entry.
pub proof fn lemma_first_occurrences_push<A>(s: Seq<A>, x: A)
    ensures
        first_occurrences(s.push(x)) == if first_occurrences(s).contains(x) {
            first_occurrences(s)
        } else {
            first_occurrences(s).push(x)
        },
{
    assert(s.push(x).drop_last() =~= s);
}

/// Whether `name` is one of `list`.
pub fn contains_name(list: &Vec<String>, name: &String) -> (found: bool)
    ensures
        found == names_of(list@).contains(name@),
{
    let mut i: usize = 0;
    while i < list.len()
        invariant
            i <= list.len(),
            forall|k: int| 0 <= k < i ==> names_of(list@)[k] != name@,
        decreases list.len() - i,
    {
        if list[i] == *name {
            assert(names_of(list@)[i as int] == name@);
            return true;
        }
        i += 1;
    }
    false
}

} // verus!
