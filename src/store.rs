//! The objects of a map, grouped by symbol. Within a symbol's group objects
//! keep the order they were added in; groups come in the order their symbol
//! was first seen.
use vstd::prelude::*;

use crate::symbol::Symbol;

verus! {

/// The objects of all groups, one group after the other.
pub open spec fn flatten<T>(groups: Seq<Seq<T>>) -> Seq<T>
    decreases groups.len(),
{
    if groups.len() == 0 {
        seq![]
    } else {
        flatten(groups.drop_last()) + groups.last()
    }
}

/// Objects keyed by symbol.
#[derive(Debug)]
pub struct ObjectStore<T> {
    symbols: Vec<Symbol>,
    groups: Vec<Vec<T>>,
    count: usize,
}

impl<T> ObjectStore<T> {
    /// The symbols of the groups, in group order.
    pub closed spec fn symbols(&self) -> Seq<Symbol> {
        self.symbols@
    }

    /// The objects of each group, in group order.
    pub closed spec fn groups(&self) -> Seq<Seq<T>> {
        self.groups@.map_values(|g: Vec<T>| g@)
    }

    /// Each symbol has one group, and the count is the number of objects.
    pub open spec fn wf(&self) -> bool {
        &&& self.symbols().len() == self.groups().len()
        &&& self.symbols().no_duplicates()
        &&& self.spec_len() == flatten(self.groups()).len()
    }

    /// The number of objects in all groups.
    pub closed spec fn spec_len(&self) -> nat {
        self.count as nat
    }

    /// No objects.
    pub fn new() -> (r: ObjectStore<T>)
        ensures
            r.wf(),
            r.symbols() == Seq::<Symbol>::empty(),
            r.groups() == Seq::<Seq<T>>::empty(),
            r.spec_len() == 0,
    {
        let r = ObjectStore { symbols: Vec::new(), groups: Vec::new(), count: 0 };
        assert(r.groups() =~= Seq::<Seq<T>>::empty());
        r
    }

    /// The number of objects in all groups.
    pub fn len(&self) -> (r: usize)
        requires
            self.wf(),
        ensures
            r == self.spec_len(),
            r == flatten(self.groups()).len(),
    {
        self.count
    }

    /// The symbols of the groups, in group order.
    pub fn keys(&self) -> (r: Vec<Symbol>)
        requires
            self.wf(),
        ensures
            r@ == self.symbols(),
    {
        let mut out: Vec<Symbol> = Vec::new();
        let mut i: usize = 0;
        while i < self.symbols.len()
            invariant
                i <= self.symbols@.len(),
                out@ == self.symbols@.subrange(0, i as int),
            decreases self.symbols.len() - i,
        {
            out.push(self.symbols[i]);
            i = i + 1;
            assert(out@ =~= self.symbols@.subrange(0, i as int));
        }
        assert(self.symbols@.subrange(0, i as int) =~= self.symbols@);
        out
    }

    /// Index of the group of `symbol`, or the number of groups when it has
    /// none.
    fn find(&self, symbol: Symbol) -> (r: usize)
        requires
            self.wf(),
        ensures
            r <= self.symbols().len(),
            r < self.symbols().len() ==> self.symbols()[r as int] == symbol,
            r == self.symbols().len() ==> !self.symbols().contains(symbol),
    {
        let mut i: usize = 0;
        while i < self.symbols.len()
            invariant
                i <= self.symbols@.len(),
                forall|j: int| 0 <= j < i ==> self.symbols@[j] != symbol,
            decreases self.symbols.len() - i,
        {
            if self.symbols[i] == symbol {
                return i;
            }
            i = i + 1;
        }
        i
    }

    /// Adds an object to the end of the group of `symbol`, making that group
    /// at the end if the symbol has none yet.
    pub fn add_object(&mut self, symbol: Symbol, obj: T)
        requires
            old(self).wf(),
            old(self).spec_len() < usize::MAX,
        ensures
            final(self).wf(),
            final(self).spec_len() == old(self).spec_len() + 1,
            old(self).symbols().contains(symbol) ==> {
                let i = old(self).symbols().index_of(symbol);
                &&& final(self).symbols() == old(self).symbols()
                &&& final(self).groups() == old(self).groups().update(
                    i,
                    old(self).groups()[i].push(obj),
                )
            },
            !old(self).symbols().contains(symbol) ==> {
                &&& final(self).symbols() == old(self).symbols().push(symbol)
                &&& final(self).groups() == old(self).groups().push(seq![obj])
            },
    {
        let ghost g0 = self.groups();
        let i = self.find(symbol);
        if i < self.symbols.len() {
            proof {
                lemma_index_of_unique(self.symbols@, i as int);
                lemma_flatten_update(g0, i as int, g0[i as int].push(obj));
            }
            self.groups[i].push(obj);
            assert(self.groups() =~= g0.update(i as int, g0[i as int].push(obj)));
        } else {
            self.symbols.push(symbol);
            let mut g: Vec<T> = Vec::new();
            g.push(obj);
            self.groups.push(g);
            proof {
                assert(self.groups() =~= g0.push(seq![obj]));
                assert(self.groups().drop_last() =~= g0);
                assert(self.symbols@.no_duplicates()) by {
                    assert forall|a: int, b: int|
                        0 <= a < self.symbols@.len() && 0 <= b < self.symbols@.len() && a != b
                            implies self.symbols@[a] != self.symbols@[b] by {
                        if a == self.symbols@.len() - 1 {
                            assert(old(self).symbols@[b] == self.symbols@[b]);
                        } else if b == self.symbols@.len() - 1 {
                            assert(old(self).symbols@[a] == self.symbols@[a]);
                        }
                    }
                }
            }
        }
        self.count = self.count + 1;
    }

    /// Makes sure that `symbol` has a group, and leaves the objects as they
    /// are.
    pub fn reserve_capacity(&mut self, symbol: Symbol, cap: usize)
        requires
            old(self).wf(),
        ensures
            final(self).wf(),
            final(self).spec_len() == old(self).spec_len(),
            final(self).symbols().contains(symbol),
            old(self).symbols().contains(symbol) ==> final(self).symbols() == old(self).symbols()
                && final(self).groups() == old(self).groups(),
            !old(self).symbols().contains(symbol) ==> final(self).symbols() == old(self).symbols().push(
                symbol,
            ) && final(self).groups() == old(self).groups().push(seq![]),
    {
        let ghost g0 = self.groups();
        let i = self.find(symbol);
        if i < self.symbols.len() {
            assert(self.symbols@.contains(symbol));
        } else {
            self.symbols.push(symbol);
            self.groups.push(Vec::with_capacity(cap));
            proof {
                assert(self.symbols@[self.symbols@.len() - 1] == symbol);
                assert(self.groups() =~= g0.push(seq![]));
                assert(self.groups().drop_last() =~= g0);
                assert(flatten(self.groups()) =~= flatten(g0));
                assert(self.symbols@.no_duplicates()) by {
                    assert forall|a: int, b: int|
                        0 <= a < self.symbols@.len() && 0 <= b < self.symbols@.len() && a != b
                            implies self.symbols@[a] != self.symbols@[b] by {
                        if a == self.symbols@.len() - 1 {
                            assert(old(self).symbols@[b] == self.symbols@[b]);
                        } else if b == self.symbols@.len() - 1 {
                            assert(old(self).symbols@[a] == self.symbols@[a]);
                        }
                    }
                }
            }
        }
    }

    /// Takes the objects of the group of `symbol` out, in the order they
    /// were added, and leaves that group empty; nothing when the symbol has
    /// no group.
    pub fn take_group(&mut self, symbol: Symbol) -> (r: Vec<T>)
        requires
            old(self).wf(),
        ensures
            final(self).wf(),
            final(self).symbols() == old(self).symbols(),
            final(self).spec_len() + r@.len() == old(self).spec_len(),
            old(self).symbols().contains(symbol) ==> {
                let i = old(self).symbols().index_of(symbol);
                &&& r@ == old(self).groups()[i]
                &&& final(self).groups() == old(self).groups().update(i, seq![])
            },
            !old(self).symbols().contains(symbol) ==> r@ == Seq::<T>::empty()
                && final(self).groups() == old(self).groups(),
    {
        let ghost g0 = self.groups();
        let i = self.find(symbol);
        if i < self.symbols.len() {
            proof {
                lemma_index_of_unique(self.symbols@, i as int);
                lemma_flatten_update(g0, i as int, Seq::<T>::empty());
            }
            let taken = self.groups.remove(i);
            self.groups.insert(i, Vec::new());
            assert(self.groups() =~= g0.update(i as int, seq![]));
            assert(taken@ == g0[i as int]);
            self.count = self.count - taken.len();
            taken
        } else {
            Vec::new()
        }
    }

    /// All objects, group after group, each group in the order its objects
    /// were added.
    pub fn into_objects(self) -> (r: Vec<T>)
        requires
            self.wf(),
        ensures
            r@ == flatten(self.groups()),
    {
        let ghost gs = self.groups();
        let mut out: Vec<T> = Vec::new();
        let mut groups = self.groups;
        let mut rest: Vec<Vec<T>> = Vec::new();
        // take the groups out back to front, then append them front to back
        while groups.len() > 0
            invariant
                groups@.len() + rest@.len() == gs.len(),
                forall|k: int| 0 <= k < groups@.len() ==> #[trigger] groups@[k]@ == gs[k],
                forall|k: int|
                    0 <= k < rest@.len() ==> #[trigger] rest@[k]@ == gs[gs.len() - 1 - k],
            decreases groups.len(),
        {
            let g = groups.pop().unwrap();
            rest.push(g);
        }
        let n = rest.len();
        while rest.len() > 0
            invariant
                rest@.len() <= n,
                n == gs.len(),
                forall|k: int|
                    0 <= k < rest@.len() ==> #[trigger] rest@[k]@ == gs[gs.len() - 1 - k],
                out@ == flatten(gs.subrange(0, n - rest@.len())),
            decreases rest.len(),
        {
            let ghost done = n - rest@.len();
            let mut g = rest.pop().unwrap();
            proof {
                let pre = gs.subrange(0, done + 1);
                assert(pre.drop_last() =~= gs.subrange(0, done));
                assert(pre.last() == gs[done]);
            }
            out.append(&mut g);
        }
        assert(gs.subrange(0, n as int) =~= gs);
        out
    }
}

/// Replacing one group changes the total by the difference of the two
/// groups' sizes.
proof fn lemma_flatten_update<T>(gs: Seq<Seq<T>>, i: int, g: Seq<T>)
    requires
        0 <= i < gs.len(),
    ensures
        flatten(gs.update(i, g)).len() + gs[i].len() == flatten(gs).len() + g.len(),
    decreases gs.len(),
{
    let u = gs.update(i, g);
    if i == gs.len() - 1 {
        assert(u.drop_last() =~= gs.drop_last());
    } else {
        assert(u.drop_last() =~= gs.drop_last().update(i, g));
        lemma_flatten_update(gs.drop_last(), i, g);
    }
}

/// In a sequence without duplicates, `index_of` finds the one position of an
/// element.
proof fn lemma_index_of_unique<A>(s: Seq<A>, i: int)
    requires
        s.no_duplicates(),
        0 <= i < s.len(),
    ensures
        s.index_of(s[i]) == i,
        s.contains(s[i]),
{
    s.index_of_first_ensures(s[i]);
}

} // verus!
