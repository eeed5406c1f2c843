//! A decoded row: a mapping from column name to value.

use crate::wire::str_eq;
use hrana_client::proto::Value;
use vstd::prelude::*;

verus! {

/// The mapping obtained by inserting `values[i]` under `names[i]` for
/// `i = 0, 1, ..` in that order. A later insertion under a name already
/// present replaces the earlier one.
pub open spec fn zip_cells(names: Seq<Seq<char>>, values: Seq<Value>) -> Map<Seq<char>, Value>
    recommends
        names.len() == values.len(),
    decreases names.len(),
{
    if names.len() == 0 {
        Map::empty()
    } else {
        zip_cells(names.drop_last(), values.drop_last()).insert(names.last(), values.last())
    }
}

/// The character sequences of a sequence of strings.
pub open spec fn text_views(names: Seq<String>) -> Seq<Seq<char>> {
    names.map_values(|s: String| s@)
}

/// The names under which `zip_cells` stores something are exactly the names
/// given.
pub proof fn lemma_zip_cells_dom(names: Seq<Seq<char>>, values: Seq<Value>)
    requires
        names.len() == values.len(),
    ensures
        forall|k: Seq<char>| zip_cells(names, values).dom().contains(k) <==> names.contains(k),
    decreases names.len(),
{
    if names.len() > 0 {
        lemma_zip_cells_dom(names.drop_last(), values.drop_last());
        assert forall|k: Seq<char>| zip_cells(names, values).dom().contains(k) <==> names.contains(
            k,
        ) by {
            if names.drop_last().contains(k) {
                let i = choose|i: int| 0 <= i < names.drop_last().len() && names.drop_last()[i] == k;
                assert(names[i] == k);
            }
            if names.contains(k) && k != names.last() {
                let i = choose|i: int| 0 <= i < names.len() && names[i] == k;
                assert(names.drop_last()[i] == k);
            }
        }
    }
}

/// Last write wins: the value stored under a name is the one given at the
/// last position that carries the name.
pub proof fn lemma_zip_cells_last_wins(names: Seq<Seq<char>>, values: Seq<Value>, i: int)
    requires
        names.len() == values.len(),
        0 <= i < names.len(),
        forall|j: int| i < j < names.len() ==> names[j] != names[i],
    ensures
        zip_cells(names, values).dom().contains(names[i]),
        zip_cells(names, values)[names[i]] == values[i],
    decreases names.len(),
{
    if i < names.len() - 1 {
        lemma_zip_cells_last_wins(names.drop_last(), values.drop_last(), i);
    }
}

/// With distinct names every value is found under its own name.
pub proof fn lemma_zip_cells_distinct(names: Seq<Seq<char>>, values: Seq<Value>)
    requires
        names.len() == values.len(),
        names.no_duplicates(),
    ensures
        forall|i: int|
            0 <= i < names.len() ==> zip_cells(names, values).dom().contains(#[trigger] names[i])
                && zip_cells(names, values)[names[i]] == values[i],
{
    assert forall|i: int| 0 <= i < names.len() implies zip_cells(names, values).dom().contains(
        #[trigger] names[i],
    ) && zip_cells(names, values)[names[i]] == values[i] by {
        lemma_zip_cells_last_wins(names, values, i);
    }
}

/// Replacing the value at a position whose name occurs nowhere else is an
/// insertion under that name.
proof fn lemma_zip_cells_update(names: Seq<Seq<char>>, values: Seq<Value>, i: int, v: Value)
    requires
        names.len() == values.len(),
        names.no_duplicates(),
        0 <= i < names.len(),
    ensures
        zip_cells(names, values.update(i, v)) == zip_cells(names, values).insert(names[i], v),
    decreases names.len(),
{
    let last = names.len() - 1;
    if i == last {
        assert(values.update(i, v).drop_last() == values.drop_last());
        assert(zip_cells(names, values.update(i, v)) =~= zip_cells(names, values).insert(
            names[i],
            v,
        ));
    } else {
        lemma_zip_cells_update(names.drop_last(), values.drop_last(), i, v);
        assert(values.update(i, v).drop_last() == values.drop_last().update(i, v));
        assert(names[last] != names[i]);
        assert(zip_cells(names, values.update(i, v)) =~= zip_cells(names, values).insert(
            names[i],
            v,
        ));
    }
}

/// A copy of a list of strings.
pub(crate) fn clone_texts(texts: &Vec<String>) -> (copy: Vec<String>)
    ensures
        text_views(copy@) == text_views(texts@),
{
    let mut copy: Vec<String> = Vec::new();
    let mut i: usize = 0;
    while i < texts.len()
        invariant
            i <= texts@.len(),
            copy@.len() == i,
            forall|j: int| 0 <= j < i ==> (#[trigger] copy@[j])@ == texts@[j]@,
        decreases texts@.len() - i,
    {
        copy.push(texts[i].clone());
        i += 1;
    }
    assert(text_views(copy@) =~= text_views(texts@));
    copy
}

/// One row of a result set.
///
/// The row stores each name once, in the order of first insertion, next to
/// the value last inserted under it.
#[derive(Debug)]
pub struct Row {
    names: Vec<String>,
    values: Vec<Value>,
}

impl View for Row {
    type V = Map<Seq<char>, Value>;

    closed spec fn view(&self) -> Map<Seq<char>, Value> {
        zip_cells(text_views(self.names@), self.values@)
    }
}

impl Clone for Row {
    /// A copy with the same cells under the same names in the same order.
    fn clone(&self) -> (copy: Row)
        ensures
            copy@ == self@,
            copy.names() == self.names(),
            self.wf() ==> copy.wf(),
    {
        let names = clone_texts(&self.names);
        let mut values: Vec<Value> = Vec::new();
        let mut i: usize = 0;
        while i < self.values.len()
            invariant
                i <= self.values@.len(),
                values@.len() == i,
                forall|j: int| 0 <= j < i ==> #[trigger] values@[j] == self.values@[j],
            decreases self.values@.len() - i,
        {
            values.push(self.values[i].clone());
            i += 1;
        }
        assert(values@ =~= self.values@);
        Row { names, values }
    }
}

impl Row {
    /// Every name is stored once, and each has its value.
    pub closed spec fn wf(&self) -> bool {
        &&& self.names@.len() == self.values@.len()
        &&& text_views(self.names@).no_duplicates()
    }

    /// The names stored in the row, in the order of first insertion.
    pub closed spec fn names(&self) -> Seq<Seq<char>> {
        text_views(self.names@)
    }

    /// A row without cells.
    pub fn new() -> (row: Row)
        ensures
            row.wf(),
            row@ == Map::<Seq<char>, Value>::empty(),
            row.names() == Seq::<Seq<char>>::empty(),
    {
        let row = Row { names: Vec::new(), values: Vec::new() };
        assert(text_views(row.names@) =~= Seq::<Seq<char>>::empty());
        row
    }

    /// The position at which `name` is stored, if it is.
    fn position(&self, name: &str) -> (found: Option<usize>)
        ensures
            match found {
                Some(i) => i < self.names@.len() && self.names@[i as int]@ == name@,
                None => forall|i: int| 0 <= i < self.names@.len() ==> self.names@[i]@ != name@,
            },
    {
        let mut i: usize = 0;
        while i < self.names.len()
            invariant
                i <= self.names@.len(),
                forall|j: int| 0 <= j < i ==> self.names@[j]@ != name@,
            decreases self.names@.len() - i,
        {
            if str_eq(self.names[i].as_str(), name) {
                return Some(i);
            }
            i += 1;
        }
        None
    }

    /// The number of cells, which is the number of distinct names.
    pub fn len(&self) -> (n: usize)
        requires
            self.wf(),
        ensures
            n == self.names().len(),
            n == self@.dom().len(),
            self@.dom().finite(),
    {
        proof {
            self.lemma_dom();
            text_views(self.names@).unique_seq_to_set();
        }
        self.names.len()
    }

    /// The names stored in the row, in the order of first insertion.
    pub fn keys(&self) -> (keys: Vec<String>)
        ensures
            text_views(keys@) == self.names(),
    {
        clone_texts(&self.names)
    }

    /// Whether the row has a cell under `name`.
    pub fn contains(&self, name: &str) -> (found: bool)
        requires
            self.wf(),
        ensures
            found == self@.dom().contains(name@),
    {
        proof {
            self.lemma_dom();
        }
        match self.position(name) {
            Some(i) => {
                assert(text_views(self.names@)[i as int] == name@);
                true
            },
            None => {
                assert(!text_views(self.names@).contains(name@));
                false
            },
        }
    }

    /// The value stored under `name`, if there is one.
    pub fn get(&self, name: &str) -> (cell: Option<&Value>)
        requires
            self.wf(),
        ensures
            match cell {
                Some(v) => self@.dom().contains(name@) && *v == self@[name@],
                None => !self@.dom().contains(name@),
            },
    {
        proof {
            self.lemma_dom();
        }
        match self.position(name) {
            Some(i) => {
                proof {
                    assert(text_views(self.names@)[i as int] == name@);
                    lemma_zip_cells_last_wins(text_views(self.names@), self.values@, i as int);
                }
                Some(&self.values[i])
            },
            None => {
                assert(!text_views(self.names@).contains(name@));
                None
            },
        }
    }

    /// Stores `value` under `name`, replacing what was stored under it
    /// before. A name that is new to the row goes behind the names already
    /// there.
    pub fn insert(&mut self, name: String, value: Value)
        requires
            old(self).wf(),
        ensures
            final(self).wf(),
            final(self)@ == old(self)@.insert(name@, value),
            final(self).names() == if old(self).names().contains(name@) {
                old(self).names()
            } else {
                old(self).names().push(name@)
            },
    {
        let ghost before = text_views(self.names@);
        let ghost held = self.values@;
        match self.position(name.as_str()) {
            Some(i) => {
                proof {
                    assert(before[i as int] == name@);
                    lemma_zip_cells_update(before, held, i as int, value);
                }
                self.values.set(i, value);
            },
            None => {
                assert(!before.contains(name@));
                self.names.push(name);
                self.values.push(value);
                proof {
                    assert(text_views(self.names@) =~= before.push(name@));
                    assert(before.push(name@).drop_last() =~= before);
                    assert(held.push(value).drop_last() =~= held);
                }
            },
        }
    }

    /// The names under which the row stores something are its `names`.
    proof fn lemma_dom(&self)
        requires
            self.wf(),
        ensures
            forall|k: Seq<char>| self@.dom().contains(k) <==> text_views(self.names@).contains(k),
            self@.dom() =~= text_views(self.names@).to_set(),
    {
        lemma_zip_cells_dom(text_views(self.names@), self.values@);
    }
}

} // verus!
