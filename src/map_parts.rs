//! The parts of an edited map: named lists of objects, kept in file order.
use vstd::prelude::*;
use vstd::std_specs::iter::IteratorSpec;

use crate::store::flatten;
use crate::EditorError;

verus! {

broadcast use vstd::std_specs::slice::axiom_spec_slice_iter;

/// One named part of a map and its objects.
#[derive(Debug, Clone)]
pub struct MapPart<T> {
    pub name: String,
    pub objects: Vec<T>,
}

impl<T> MapPart<T> {
    /// The part's name and objects.
    pub open spec fn spec_view(&self) -> (Seq<char>, Seq<T>) {
        (self.name@, self.objects@)
    }

    /// Appends the objects of `other` to this part, which keeps its name.
    pub fn merge(&mut self, other: MapPart<T>)
        ensures
            final(self).name@ == old(self).name@,
            final(self).objects@ == old(self).objects@ + other.objects@,
    {
        let mut other = other;
        self.objects.append(&mut other.objects);
    }
}

/// The parts of a map, in order.
#[derive(Debug, Clone)]
pub struct MapParts<T> {
    parts: Vec<MapPart<T>>,
}

/// The objects of each part, in order.
pub open spec fn part_objects<T>(ps: Seq<(Seq<char>, Seq<T>)>) -> Seq<Seq<T>> {
    ps.map_values(|p: (Seq<char>, Seq<T>)| p.1)
}

impl<T> View for MapParts<T> {
    type V = Seq<(Seq<char>, Seq<T>)>;

    closed spec fn view(&self) -> Seq<(Seq<char>, Seq<T>)> {
        self.parts@.map_values(|p: MapPart<T>| p.spec_view())
    }
}

impl<T> MapParts<T> {
    /// Parts in the given order.
    pub fn new(parts: Vec<MapPart<T>>) -> (r: MapParts<T>)
        ensures
            r@ == parts@.map_values(|p: MapPart<T>| p.spec_view()),
    {
        MapParts { parts }
    }

    /// Merge all map parts into a single part: the objects of every part, in
    /// part order. With `new_name` the part gets that name, else it keeps the
    /// name of the first part. Without parts nothing happens.
    pub fn merge_all_parts(&mut self, new_name: Option<String>)
        ensures
            old(self)@.len() == 0 ==> final(self)@ == old(self)@,
            old(self)@.len() > 0 ==> final(self)@ == seq![
                (
                    match new_name {
                        Some(n) => n@,
                        None => old(self)@[0].0,
                    },
                    flatten(part_objects(old(self)@)),
                ),
            ],
    {
        if self.parts.len() == 0 {
            return;
        }
        let ghost ps = self@;
        let ghost objs = part_objects(ps);
        let n = self.parts.len() - 1;
        let ghost old_parts = self.parts@;
        let mut rest = self.parts.split_off(1);
        assert(self.parts@.len() == 1);
        proof {
            assert(self.parts@[0] == old_parts[0]);
            assert(objs[0] == ps[0].1);
            assert(objs.subrange(0, 1).last() == objs[0]);
            assert forall|k: int| 0 <= k < rest@.len() implies #[trigger] rest@[k].spec_view()
                == ps[k + 1] by {
                assert(rest@[k] == old_parts[k + 1]);
            }
            assert(objs.subrange(0, 1).drop_last() =~= Seq::<Seq<T>>::empty());
            assert(flatten(Seq::<Seq<T>>::empty()) == Seq::<T>::empty());
            assert(flatten(objs.subrange(0, 1)) =~= self.parts@[0].objects@);
        }
        let mut i: usize = 0;
        while rest.len() > 0
            invariant
                self.parts@.len() == 1,
                objs == part_objects(ps),
                ps.len() == n + 1,
                objs.len() == n + 1,
                rest@.len() + i == n,
                forall|k: int|
                    0 <= k < rest@.len() ==> #[trigger] rest@[k].spec_view() == ps[k + i + 1],
                self.parts@[0].name@ == ps[0].0,
                self.parts@[0].objects@ == flatten(objs.subrange(0, i + 1)),
            decreases rest.len(),
        {
            assert(i < n);
            let ghost first = rest@[0];
            assert(first.spec_view() == ps[i + 1]);
            let part = rest.remove(0);
            proof {
                assert(objs[i + 1] == ps[i + 1].1);
                let pre = objs.subrange(0, i + 2);
                assert(pre.drop_last() =~= objs.subrange(0, i + 1));
                assert(pre.last() == part.objects@);
            }
            self.parts[0].merge(part);
            i = i + 1;
        }
        assert(objs.subrange(0, n + 1) =~= objs);
        match new_name {
            Some(name) => {
                self.parts[0].name = name;
            },
            None => {},
        }
        assert(self@ =~= seq![
            (
                match new_name {
                    Some(n) => n@,
                    None => ps[0].0,
                },
                flatten(objs),
            ),
        ]);
    }

    /// Merge the part at `part_2_index` into the part at `part_1_index`,
    /// which keeps its name and place; the other parts keep their order.
    /// Fails when an index is out of range or both are the same.
    pub fn merge_two_parts(&mut self, part_1_index: usize, part_2_index: usize) -> (r: Result<
        (),
        EditorError,
    >)
        ensures
            r is Ok <==> (part_1_index < old(self)@.len() && part_2_index < old(self)@.len()
                && part_1_index != part_2_index),
            r is Err ==> final(self)@ == old(self)@ && r->Err_0 is MapPartMergeError,
            r is Ok ==> final(self)@ == old(self)@.update(
                part_1_index as int,
                (
                    old(self)@[part_1_index as int].0,
                    old(self)@[part_1_index as int].1 + old(self)@[part_2_index as int].1,
                ),
            ).remove(part_2_index as int),
    {
        if part_1_index >= self.parts.len() || part_2_index >= self.parts.len() || part_1_index
            == part_2_index {
            return Err(EditorError::MapPartMergeError);
        }
        let ghost ps = self@;
        let part2 = self.parts.remove(part_2_index);
        let target = if part_2_index < part_1_index {
            part_1_index - 1
        } else {
            part_1_index
        };
        self.parts[target].merge(part2);
        assert(self@ =~= ps.update(
            part_1_index as int,
            (ps[part_1_index as int].0, ps[part_1_index as int].1 + ps[part_2_index as int].1),
        ).remove(part_2_index as int));
        Ok(())
    }

    /// Removes and returns the part at `index`, if there is one.
    pub fn remove_map_part_by_index(&mut self, index: usize) -> (r: Option<MapPart<T>>)
        ensures
            index < old(self)@.len() ==> (r matches Some(p) && p.spec_view() == old(self)@[index as int]
                && final(self)@ == old(self)@.remove(index as int)),
            index >= old(self)@.len() ==> r is None && final(self)@ == old(self)@,
    {
        if index < self.parts.len() {
            let ghost ps = self@;
            let p = self.parts.remove(index);
            assert(self@ =~= ps.remove(index as int));
            Some(p)
        } else {
            None
        }
    }

    /// The first part named `name` (case sensitive), if there is one.
    pub fn get_map_part_by_name(&self, name: &str) -> (r: Option<&MapPart<T>>)
        ensures
            r is None ==> forall|i: int| 0 <= i < self@.len() ==> self@[i].0 != name@,
            r matches Some(p) ==> exists|i: int|
                0 <= i < self@.len() && p.spec_view() == self@[i] && p.name@ == name@ && forall|
                    j: int,
                | 0 <= j < i ==> self@[j].0 != name@,
    {
        let wanted = name.to_owned();
        let mut i: usize = 0;
        while i < self.parts.len()
            invariant
                i <= self@.len(),
                wanted@ == name@,
                forall|j: int| 0 <= j < i ==> self@[j].0 != name@,
            decreases self.parts.len() - i,
        {
            assert(self@[i as int].0 == self.parts@[i as int].name@);
            if self.parts[i].name == wanted {
                return Some(&self.parts[i]);
            }
            i = i + 1;
        }
        None
    }

    /// The part at `index`, if there is one.
    pub fn get_map_part_by_index(&self, index: usize) -> (r: Option<&MapPart<T>>)
        ensures
            index < self@.len() ==> (r matches Some(p) && p.spec_view() == self@[index as int]),
            index >= self@.len() ==> r is None,
    {
        if index >= self.parts.len() {
            None
        } else {
            Some(&self.parts[index])
        }
    }

    /// Access the parts through an iterator
    pub fn iter(&self) -> (r: std::slice::Iter<'_, MapPart<T>>)
        ensures
            r.remaining().len() == self@.len(),
            forall|i: int|
                0 <= i < self@.len() ==> (#[trigger] r.remaining()[i]).spec_view() == self@[i],
    {
        self.parts.as_slice().iter()
    }

    /// Get the number of parts
    pub fn num_map_parts(&self) -> (r: usize)
        ensures
            r == self@.len(),
    {
        self.parts.len()
    }
}

} // verus!
