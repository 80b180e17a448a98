//! Running totals that notice when they leave the range of an `i32`, and sets that
//! count their members.
use std::collections::HashSet;
use vstd::prelude::*;

verus! {

/// The sum of all amounts.
pub open spec fn sum(amounts: Seq<int>) -> int
    decreases amounts.len(),
{
    if amounts.len() == 0 {
        0
    } else {
        sum(amounts.drop_last()) + amounts.last()
    }
}

/// Adding the amounts one after another never leaves the range of an `i32`.
pub open spec fn stays_in_range(amounts: Seq<int>) -> bool {
    forall|k: int|
        0 <= k <= amounts.len() ==> i32::MIN <= #[trigger] sum(amounts.take(k)) <= i32::MAX
}

/// The amount that an optional figure adds: nothing where it is unknown.
pub open spec fn amount(figure: Option<i32>) -> int {
    match figure {
        Some(n) => n as int,
        None => 0,
    }
}

pub proof fn lemma_sum_push(amounts: Seq<int>, a: int)
    ensures
        sum(amounts.push(a)) == sum(amounts) + a,
{
    assert(amounts.push(a).drop_last() =~= amounts);
}

/// Adding one more amount stays in range exactly when all before did and the new
/// total does.
pub proof fn lemma_in_range_push(amounts: Seq<int>, a: int)
    ensures
        stays_in_range(amounts.push(a)) <==> stays_in_range(amounts) && i32::MIN <= sum(amounts) + a
            <= i32::MAX,
{
    let longer = amounts.push(a);
    lemma_sum_push(amounts, a);
    assert(longer.take(longer.len() as int) =~= longer);
    assert forall|k: int| 0 <= k <= amounts.len() implies longer.take(k) == #[trigger] amounts.take(
        k,
    ) by {
        assert(longer.take(k) =~= amounts.take(k));
    }
    if stays_in_range(longer) {
        assert forall|k: int| 0 <= k <= amounts.len() implies i32::MIN <= #[trigger] sum(
            amounts.take(k),
        ) <= i32::MAX by {
            assert(longer.take(k) == amounts.take(k));
        }
        assert(i32::MIN <= sum(longer.take(longer.len() as int)) <= i32::MAX);
    }
    if stays_in_range(amounts) && i32::MIN <= sum(amounts) + a <= i32::MAX {
        assert forall|k: int| 0 <= k <= longer.len() implies i32::MIN <= #[trigger] sum(
            longer.take(k),
        ) <= i32::MAX by {
            if k <= amounts.len() {
                assert(longer.take(k) == amounts.take(k));
            } else {
                assert(longer.take(k) =~= longer);
            }
        }
    }
}

/// One more entry adds itself to the set of entries.
pub proof fn lemma_push_to_set<T>(s: Seq<T>, x: T)
    ensures
        s.push(x).to_set() == s.to_set().insert(x),
{
    assert forall|y: T| #[trigger] s.push(x).to_set().contains(y) <==> s.to_set().insert(
        x,
    ).contains(y) by {
        if s.contains(y) {
            let i = choose|i: int| 0 <= i < s.len() && s[i] == y;
            assert(s.push(x)[i] == y);
        }
        assert(s.push(x)[s.len() as int] == x);
    }
    assert(s.push(x).to_set() =~= s.to_set().insert(x));
}

/// Filtering one entry more keeps it exactly when it passes.
pub proof fn lemma_filter_take<T>(s: Seq<T>, keep: spec_fn(T) -> bool, i: int)
    requires
        0 <= i < s.len(),
    ensures
        s.take(i + 1).filter(keep) == if keep(s[i]) {
            s.take(i).filter(keep).push(s[i])
        } else {
            s.take(i).filter(keep)
        },
{
    reveal(Seq::filter);
    assert(s.take(i + 1).drop_last() =~= s.take(i));
}

/// A total that is added to step by step. It is spoilt for good once it has left the
/// range of an `i32`.
pub struct RunningTotal {
    value: Option<i32>,
    amounts: Ghost<Seq<int>>,
}

impl View for RunningTotal {
    type V = Seq<int>;

    /// The amounts that were added, in order.
    closed spec fn view(&self) -> Seq<int> {
        self.amounts@
    }
}

impl RunningTotal {
    pub closed spec fn wf(self) -> bool {
        match self.value {
            Some(v) => stays_in_range(self@) && v == sum(self@),
            None => !stays_in_range(self@),
        }
    }

    pub fn new() -> (total: Self)
        ensures
            total.wf(),
            total@ == Seq::<int>::empty(),
    {
        let total = RunningTotal { value: Some(0), amounts: Ghost(Seq::empty()) };
        assert forall|k: int| 0 <= k <= total@.len() implies i32::MIN <= #[trigger] sum(
            total@.take(k),
        ) <= i32::MAX by {
            assert(total@.take(k) =~= Seq::<int>::empty());
        }
        total
    }

    pub fn increase(&mut self, n: i32)
        requires
            old(self).wf(),
        ensures
            final(self).wf(),
            final(self)@ == old(self)@.push(n as int),
    {
        proof {
            lemma_sum_push(self@, n as int);
            lemma_in_range_push(self@, n as int);
        }
        self.value = match self.value {
            Some(v) => v.checked_add(n),
            None => None,
        };
        self.amounts = Ghost(self.amounts@.push(n as int));
    }

    pub fn increase_by(&mut self, figure: Option<i32>)
        requires
            old(self).wf(),
        ensures
            final(self).wf(),
            final(self)@ == old(self)@.push(amount(figure)),
    {
        match figure {
            Some(n) => self.increase(n),
            None => self.increase(0),
        }
    }

    pub fn value(&self) -> (value: Option<i32>)
        requires
            self.wf(),
        ensures
            match value {
                Some(v) => stays_in_range(self@) && v == sum(self@),
                None => !stays_in_range(self@),
            },
    {
        self.value
    }
}

/// A count that is raised step by step. It is spoilt for good once it has left the range
/// of an `i32`.
pub struct RunningCount {
    value: Option<i32>,
    raised: Ghost<nat>,
}

impl View for RunningCount {
    type V = nat;

    /// How often the count was raised.
    closed spec fn view(&self) -> nat {
        self.raised@
    }
}

impl RunningCount {
    pub closed spec fn wf(self) -> bool {
        match self.value {
            Some(v) => v == self@,
            None => self@ > i32::MAX,
        }
    }

    pub fn new() -> (count: Self)
        ensures
            count.wf(),
            count@ == 0,
    {
        RunningCount { value: Some(0), raised: Ghost(0) }
    }

    pub fn raise(&mut self)
        requires
            old(self).wf(),
        ensures
            final(self).wf(),
            final(self)@ == old(self)@ + 1,
    {
        self.value = match self.value {
            Some(v) => v.checked_add(1),
            None => None,
        };
        self.raised = Ghost(self.raised@ + 1);
    }

    pub fn value(&self) -> (value: Option<i32>)
        requires
            self.wf(),
        ensures
            match value {
                Some(v) => v == self@,
                None => self@ > i32::MAX,
            },
    {
        self.value
    }
}

/// The size of a collection as an `i32`, where it is small enough.
pub fn small_len(n: usize) -> (len: Option<i32>)
    ensures
        match len {
            Some(v) => v == n,
            None => n > i32::MAX,
        },
{
    if n <= i32::MAX as usize {
        Some(n as i32)
    } else {
        None
    }
}

/// The key under which a pair of numbers is held: different pairs have different keys.
pub open spec fn pair_key(pair: (i32, i32)) -> i64 {
    (pair.0 * 0x1_0000_0000 + (pair.1 + 0x8000_0000)) as i64
}

/// A set of pairs of numbers.
pub struct PairSet {
    keys: HashSet<i64>,
    pairs: Ghost<Set<(i32, i32)>>,
}

impl View for PairSet {
    type V = Set<(i32, i32)>;

    closed spec fn view(&self) -> Set<(i32, i32)> {
        self.pairs@
    }
}

impl PairSet {
    pub closed spec fn wf(self) -> bool {
        &&& self@.finite()
        &&& self.keys@ == self@.map(|p: (i32, i32)| pair_key(p))
    }

    pub fn new() -> (set: Self)
        ensures
            set.wf(),
            set@ == Set::<(i32, i32)>::empty(),
    {
        broadcast use vstd::std_specs::hash::group_hash_axioms;

        let set = PairSet { keys: HashSet::new(), pairs: Ghost(Set::empty()) };
        assert(set.keys@ =~= set@.map(|p: (i32, i32)| pair_key(p)));
        set
    }

    pub fn insert(&mut self, a: i32, b: i32)
        requires
            old(self).wf(),
        ensures
            final(self).wf(),
            final(self)@ == old(self)@.insert((a, b)),
    {
        broadcast use vstd::std_specs::hash::group_hash_axioms;

        let ghost before = self@;
        let key: i64 = a as i64 * 0x1_0000_0000 + (b as i64 + 0x8000_0000);
        self.keys.insert(key);
        self.pairs = Ghost(self.pairs@.insert((a, b)));
        proof {
            let f = |p: (i32, i32)| pair_key(p);
            assert(f((a, b)) == key);
            assert forall|k: i64| #[trigger] self.keys@.contains(k) <==> self@.map(f).contains(k) by {
                if before.map(f).contains(k) {
                    let p = choose|p: (i32, i32)| before.contains(p) && f(p) == k;
                    assert(self@.contains(p));
                }
                if k == key {
                    assert(self@.contains((a, b)));
                }
                if self@.map(f).contains(k) {
                    let p = choose|p: (i32, i32)| self@.contains(p) && f(p) == k;
                    assert(p == (a, b) || before.contains(p));
                }
            }
            assert(self.keys@ =~= self@.map(f));
        }
    }

    pub fn len(&self) -> (n: usize)
        requires
            self.wf(),
        ensures
            n == self@.len(),
    {
        broadcast use vstd::std_specs::hash::group_hash_axioms;

        proof {
            let f = |p: (i32, i32)| pair_key(p);
            assert forall|p: (i32, i32), q: (i32, i32)|
                self@.contains(p) && self@.contains(q) && #[trigger] f(p) == #[trigger] f(q) implies p
                == q by {}
            vstd::set_lib::lemma_map_size(self@, self.keys@, f);
        }
        self.keys.len()
    }
}

/// A set of numbers, each with a name.
pub struct NamedSet {
    members: Vec<(i32, String)>,
}

impl View for NamedSet {
    type V = Set<(i32, Seq<char>)>;

    closed spec fn view(&self) -> Set<(i32, Seq<char>)> {
        self.names().to_set()
    }
}

impl NamedSet {
    spec fn names(self) -> Seq<(i32, Seq<char>)> {
        self.members@.map_values(|m: (i32, String)| (m.0, m.1@))
    }

    /// No member is held twice.
    pub closed spec fn wf(self) -> bool {
        self.names().no_duplicates()
    }

    pub fn new() -> (set: Self)
        ensures
            set.wf(),
            set@ == Set::<(i32, Seq<char>)>::empty(),
    {
        let set = NamedSet { members: Vec::new() };
        assert(set@ =~= Set::<(i32, Seq<char>)>::empty());
        set
    }

    fn contains(&self, n: i32, name: &String) -> (found: bool)
        ensures
            found == self.names().contains((n, name@)),
    {
        for i in 0..self.members.len()
            invariant
                forall|j: int| 0 <= j < i ==> #[trigger] self.names()[j] != (n, name@),
        {
            assert(self.names()[i as int] == (self.members@[i as int].0, self.members@[i as int].1@));
            if self.members[i].0 == n && self.members[i].1 == *name {
                return true;
            }
        }
        false
    }

    pub fn insert(&mut self, n: i32, name: &String)
        requires
            old(self).wf(),
        ensures
            final(self).wf(),
            final(self)@ == old(self)@.insert((n, name@)),
    {
        let ghost before = self.names();
        if !self.contains(n, name) {
            self.members.push((n, name.clone()));
            assert(self.names() =~= before.push((n, name@)));
        }
        proof {
            assert forall|m: (i32, Seq<char>)| self@.contains(m) <==> before.to_set().insert(
                (n, name@),
            ).contains(m) by {
                if self.names() != before {
                    if before.contains(m) {
                        let j = choose|j: int| 0 <= j < before.len() && before[j] == m;
                        assert(self.names()[j] == m);
                    }
                    if m == (n, name@) {
                        assert(self.names()[before.len() as int] == m);
                    }
                }
            }
            assert(self@ =~= before.to_set().insert((n, name@)));
        }
    }

    pub fn len(&self) -> (n: usize)
        requires
            self.wf(),
        ensures
            n == self@.len(),
    {
        proof {
            self.names().unique_seq_to_set();
        }
        self.members.len()
    }
}

} // verus!
