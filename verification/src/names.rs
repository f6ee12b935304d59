//! A set of names, kept as a vector in strictly ascending lexicographic
//! order, so that what it lists is fixed by what it holds.

use crate::text::{
    lex_less, lex_less_irreflexive, lex_less_total, lex_less_transitive, rank, texts, Rank,
};
use vstd::prelude::*;
use vstd::string::StringExecFns;

verus! {

/// Each text comes before every later one: ascending, and nothing twice.
pub open spec fn strictly_sorted(s: Seq<Seq<char>>) -> bool {
    forall|i: int, j: int| 0 <= i < j < s.len() ==> lex_less(s[i], s[j])
}

/// A strictly sorted sequence holds nothing twice.
pub proof fn sorted_no_duplicates(s: Seq<Seq<char>>)
    requires
        strictly_sorted(s),
    ensures
        s.no_duplicates(),
{
    assert forall|i: int, j: int| 0 <= i < s.len() && 0 <= j < s.len() && i != j implies s[i]
        != s[j] by {
        lex_less_irreflexive(s[i]);
    }
}

/// Two strictly sorted sequences that hold the same texts are the same
/// sequence.
pub proof fn sorted_listing_unique(a: Seq<Seq<char>>, b: Seq<Seq<char>>)
    requires
        strictly_sorted(a),
        strictly_sorted(b),
        forall|n: Seq<char>| a.contains(n) <==> b.contains(n),
    ensures
        a == b,
    decreases a.len(),
{
    if a.len() == 0 {
        if b.len() > 0 {
            assert(b.contains(b[0]));
        }
        assert(a =~= b);
    } else if b.len() == 0 {
        assert(a.contains(a[0]));
    } else {
        assert(a.contains(a[0]));
        assert(b.contains(b[0]));
        let i = choose|i: int| 0 <= i < b.len() && b[i] == a[0];
        let j = choose|j: int| 0 <= j < a.len() && a[j] == b[0];
        if i != 0 && j != 0 {
            // b[0] < b[i] == a[0] < a[j] == b[0]
            lex_less_transitive(b[0], a[0], b[0]);
            lex_less_irreflexive(b[0]);
        }
        assert(a[0] == b[0]);
        let ta = a.drop_first();
        let tb = b.drop_first();
        assert forall|n: Seq<char>| ta.contains(n) <==> tb.contains(n) by {
            if ta.contains(n) {
                let k = choose|k: int| 0 <= k < ta.len() && ta[k] == n;
                assert(a[k + 1] == n);
                assert(a.contains(n));
                lex_less_irreflexive(n);
                let m = choose|m: int| 0 <= m < b.len() && b[m] == n;
                assert(m != 0);
                assert(tb[m - 1] == n);
            }
            if tb.contains(n) {
                let k = choose|k: int| 0 <= k < tb.len() && tb[k] == n;
                assert(b[k + 1] == n);
                assert(b.contains(n));
                lex_less_irreflexive(n);
                let m = choose|m: int| 0 <= m < a.len() && a[m] == n;
                assert(m != 0);
                assert(ta[m - 1] == n);
            }
        }
        assert forall|x: int, y: int| 0 <= x < y < ta.len() implies lex_less(ta[x], ta[y]) by {
            assert(ta[x] == a[x + 1] && ta[y] == a[y + 1]);
        }
        assert forall|x: int, y: int| 0 <= x < y < tb.len() implies lex_less(tb[x], tb[y]) by {
            assert(tb[x] == b[x + 1] && tb[y] == b[y + 1]);
        }
        sorted_listing_unique(ta, tb);
        assert(a =~= seq![a[0]] + ta);
        assert(b =~= seq![b[0]] + tb);
    }
}

/// A finite set of names.
#[derive(Clone, Debug)]
pub struct NameSet {
    names: Vec<String>,
}

impl View for NameSet {
    type V = Set<Seq<char>>;

    closed spec fn view(&self) -> Set<Seq<char>> {
        texts(self.names@).to_set()
    }
}

impl NameSet {
    /// The names of the set in ascending order.
    pub closed spec fn listing(&self) -> Seq<Seq<char>> {
        texts(self.names@)
    }

    /// The invariant of the type: the names stand in strictly ascending order.
    pub open spec fn wf(&self) -> bool {
        strictly_sorted(self.listing())
    }

    /// The listing holds exactly the members, each once.
    pub proof fn listing_is_view(&self)
        requires
            self.wf(),
        ensures
            self.listing().to_set() == self@,
            self.listing().no_duplicates(),
            self@.finite(),
            self@.len() == self.listing().len(),
            forall|n: Seq<char>| self.listing().contains(n) <==> self@.contains(n),
    {
        sorted_no_duplicates(self.listing());
        self.listing().unique_seq_to_set();
        vstd::seq_lib::seq_to_set_is_finite(self.listing());
    }

    /// The empty set.
    pub fn new() -> (out: NameSet)
        ensures
            out.wf(),
            out@ == Set::<Seq<char>>::empty(),
            out.listing() == Seq::<Seq<char>>::empty(),
    {
        let out = NameSet { names: Vec::new() };
        assert(out.listing() =~= Seq::<Seq<char>>::empty());
        assert(out@ =~= Set::<Seq<char>>::empty());
        out
    }

    /// Where `name` stands, or would stand, in the listing, and whether it
    /// is there. Found by halving.
    fn position(&self, name: &str) -> (r: (usize, bool))
        requires
            self.wf(),
        ensures
            r.0 <= self.listing().len(),
            forall|i: int| 0 <= i < r.0 ==> lex_less(#[trigger] self.listing()[i], name@),
            r.1 ==> r.0 < self.listing().len() && self.listing()[r.0 as int] == name@,
            !r.1 ==> forall|i: int|
                r.0 <= i < self.listing().len() ==> lex_less(name@, #[trigger] self.listing()[i]),
    {
        let mut low: usize = 0;
        let mut high: usize = self.names.len();
        while low < high
            invariant
                self.wf(),
                low <= high <= self.names.len(),
                forall|k: int| 0 <= k < low ==> lex_less(#[trigger] self.listing()[k], name@),
                forall|k: int|
                    high <= k < self.listing().len() ==> lex_less(
                        name@,
                        #[trigger] self.listing()[k],
                    ),
            decreases high - low,
        {
            let mid = low + (high - low) / 2;
            let r = rank(self.names[mid].as_str(), name);
            let ghost at_mid = self.listing()[mid as int];
            assert(at_mid == self.names@[mid as int]@);
            match r {
                Rank::Before => {
                    proof {
                        assert forall|k: int| 0 <= k < mid + 1 implies lex_less(
                            #[trigger] self.listing()[k],
                            name@,
                        ) by {
                            if k < mid {
                                lex_less_transitive(self.listing()[k], at_mid, name@);
                            }
                        }
                    }
                    low = mid + 1;
                },
                Rank::Same => {
                    return (mid, true);
                },
                Rank::After => {
                    proof {
                        lex_less_total(at_mid, name@);
                        assert forall|k: int| mid <= k < self.listing().len() implies lex_less(
                            name@,
                            #[trigger] self.listing()[k],
                        ) by {
                            if k > mid {
                                lex_less_transitive(name@, at_mid, self.listing()[k]);
                            }
                        }
                    }
                    high = mid;
                },
            }
        }
        (low, false)
    }

    /// Whether `name` is a member.
    pub fn contains(&self, name: &str) -> (r: bool)
        requires
            self.wf(),
        ensures
            r == self@.contains(name@),
    {
        let (p, found) = self.position(name);
        proof {
            if !found {
                lex_less_irreflexive(name@);
                assert(!self.listing().contains(name@));
            } else {
                assert(self.listing().contains(name@));
            }
        }
        found
    }

    /// Adds `name`; tells whether it was new.
    pub fn insert(&mut self, name: &str) -> (added: bool)
        requires
            old(self).wf(),
        ensures
            final(self).wf(),
            final(self)@ == old(self)@.insert(name@),
            added == !old(self)@.contains(name@),
    {
        let (p, found) = self.position(name);
        let ghost before = self.listing();
        if found {
            assert(before.contains(name@));
            assert(self@ =~= self@.insert(name@));
            return false;
        }
        proof {
            lex_less_irreflexive(name@);
            assert(!before.contains(name@));
        }
        self.names.insert(p, String::from_str(name));
        proof {
            let after = self.listing();
            assert(after =~= before.insert(p as int, name@));
            assert forall|i: int, j: int| 0 <= i < j < after.len() implies lex_less(
                after[i],
                after[j],
            ) by {
                if j < p {
                } else if j == p {
                    assert(after[i] == before[i]);
                } else if i < p {
                    assert(after[i] == before[i]);
                    assert(after[j] == before[j - 1]);
                    lex_less_transitive(before[i], name@, before[j - 1]);
                } else if i == p {
                    assert(after[j] == before[j - 1]);
                } else {
                    assert(after[i] == before[i - 1]);
                    assert(after[j] == before[j - 1]);
                }
            }
            assert forall|n: Seq<char>| after.to_set().contains(n) <==> before.to_set().insert(
                name@,
            ).contains(n) by {
                if after.contains(n) {
                    let k = choose|k: int| 0 <= k < after.len() && after[k] == n;
                    if k < p {
                        assert(before[k] == n);
                    } else if k > p {
                        assert(before[k - 1] == n);
                    }
                }
                if before.contains(n) {
                    let k = choose|k: int| 0 <= k < before.len() && before[k] == n;
                    if k < p {
                        assert(after[k] == n);
                    } else {
                        assert(after[k + 1] == n);
                    }
                }
                if n == name@ {
                    assert(after[p as int] == n);
                }
            }
            assert(self@ =~= before.to_set().insert(name@));
        }
        true
    }

    /// The number of members.
    pub fn len(&self) -> (n: usize)
        requires
            self.wf(),
        ensures
            n == self@.len(),
            n == self.listing().len(),
    {
        proof {
            self.listing_is_view();
        }
        self.names.len()
    }

    /// The members in ascending order.
    pub fn names(&self) -> (out: &Vec<String>)
        ensures
            texts(out@) == self.listing(),
    {
        &self.names
    }

    /// Gives up the set for its members in ascending order.
    pub fn into_names(self) -> (out: Vec<String>)
        ensures
            texts(out@) == self.listing(),
    {
        self.names
    }
}

} // verus!
