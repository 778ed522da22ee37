//! One row of a result, as an ordered mapping from column name to value.

use crate::text::texts;
use crate::value::{UntypedValue, ValueModel};
use vstd::prelude::*;

verus! {

/// The mathematical value of a [`Record`]: its columns in order, each a key
/// and the value under it.
pub type RecordModel = Seq<(Seq<char>, ValueModel)>;

/// Whether some entry of `entries` has the key `key`.
pub open spec fn has_key(entries: RecordModel, key: Seq<char>) -> bool {
    exists|i: int| 0 <= i < entries.len() && (#[trigger] entries[i]).0 == key
}

/// Whether `place` is the first place of `entries` that holds `key`.
pub open spec fn is_first_place(
    entries: RecordModel,
    key: Seq<char>,
    place: int,
) -> bool {
    &&& 0 <= place < entries.len()
    &&& entries[place].0 == key
    &&& forall|j: int| 0 <= j < place ==> (#[trigger] entries[j]).0 != key
}

/// The first place of `entries` that holds `key`. Where the keys are
/// distinct it is the only one.
pub open spec fn position(entries: RecordModel, key: Seq<char>) -> int {
    choose|place: int| is_first_place(entries, key, place)
}

/// Whether no key occurs twice.
pub open spec fn distinct_keys(entries: RecordModel) -> bool {
    forall|i: int, j: int|
        0 <= i < j < entries.len() ==> (#[trigger] entries[i]).0 != (#[trigger] entries[j]).0
}

/// `entries` after `key` was given `value`: a key that is there keeps its
/// place and takes the new value, a new key comes last.
pub open spec fn inserted(
    entries: RecordModel,
    key: Seq<char>,
    value: ValueModel,
) -> RecordModel {
    if has_key(entries, key) {
        entries.update(position(entries, key), (key, value))
    } else {
        entries.push((key, value))
    }
}

/// The entries that the first `count` names and values make, taken pair by
/// pair from the left.
pub open spec fn zipped_upto(
    names: Seq<Seq<char>>,
    values: Seq<ValueModel>,
    count: int,
) -> RecordModel
    decreases count,
{
    if count <= 0 {
        Seq::empty()
    } else {
        inserted(zipped_upto(names, values, count - 1), names[count - 1], values[count - 1])
    }
}

/// The entries that `names` and `values` make, pair by pair, as far as both
/// reach.
pub open spec fn zipped(names: Seq<Seq<char>>, values: Seq<ValueModel>) -> RecordModel {
    zipped_upto(
        names,
        values,
        if names.len() <= values.len() {
            names.len() as int
        } else {
            values.len() as int
        },
    )
}

/// The value that `entries` holds for each key.
pub open spec fn as_map(entries: RecordModel) -> Map<Seq<char>, ValueModel> {
    Map::new(
        |key: Seq<char>| has_key(entries, key),
        |key: Seq<char>| entries[position(entries, key)].1,
    )
}

/// The views of the values in `values`.
pub open spec fn models(values: Seq<UntypedValue>) -> Seq<ValueModel> {
    values.map_values(|value: UntypedValue| value@)
}

/// Whether the name at place `i` does not come again before place `count`.
pub open spec fn is_last_of_name(names: Seq<Seq<char>>, count: int, i: int) -> bool {
    forall|j: int| i < j < count ==> #[trigger] names[j] != names[i]
}

/// A key has one first place at most.
pub proof fn lemma_first_place_is_position(
    entries: RecordModel,
    key: Seq<char>,
    place: int,
)
    requires
        is_first_place(entries, key, place),
    ensures
        has_key(entries, key),
        position(entries, key) == place,
{
    let found = position(entries, key);
    assert(is_first_place(entries, key, found));
    if found < place {
        assert(entries[found].0 != key);
    } else if place < found {
        assert(entries[place].0 != key);
    }
}

/// Where the keys are distinct, the entry that holds a key is found at its
/// place.
pub proof fn lemma_position_is_unique(entries: RecordModel, place: int)
    requires
        distinct_keys(entries),
        0 <= place < entries.len(),
    ensures
        has_key(entries, entries[place].0),
        position(entries, entries[place].0) == place,
{
    let key = entries[place].0;
    assert forall|j: int| 0 <= j < place implies (#[trigger] entries[j]).0 != key by {
        assert(entries[j].0 != entries[place].0);
    }
    lemma_first_place_is_position(entries, key, place);
}

/// A key that some entry holds has a first place.
pub proof fn lemma_held_key_has_position(entries: RecordModel, key: Seq<char>)
    requires
        has_key(entries, key),
    ensures
        is_first_place(entries, key, position(entries, key)),
{
    let some = choose|i: int| 0 <= i < entries.len() && (#[trigger] entries[i]).0 == key;
    lemma_first_place_before(entries, key, some);
}

/// Among the places up to one that holds `key`, one is the first.
proof fn lemma_first_place_before(entries: RecordModel, key: Seq<char>, place: int)
    requires
        0 <= place < entries.len(),
        entries[place].0 == key,
    ensures
        exists|first: int| is_first_place(entries, key, first),
    decreases place,
{
    if exists|j: int| 0 <= j < place && (#[trigger] entries[j]).0 == key {
        let j = choose|j: int| 0 <= j < place && (#[trigger] entries[j]).0 == key;
        lemma_first_place_before(entries, key, j);
    } else {
        assert(is_first_place(entries, key, place));
    }
}

/// Giving a key a value keeps the keys distinct, and changes the mapping as
/// an insertion does: the key now has the new value, and every other key
/// the value it had.
pub proof fn lemma_inserted_is_map_insert(
    entries: RecordModel,
    key: Seq<char>,
    value: ValueModel,
)
    requires
        distinct_keys(entries),
    ensures
        distinct_keys(inserted(entries, key, value)),
        as_map(inserted(entries, key, value)) == as_map(entries).insert(key, value),
{
    let after = inserted(entries, key, value);
    let place = if has_key(entries, key) {
        position(entries, key)
    } else {
        entries.len() as int
    };
    if has_key(entries, key) {
        lemma_held_key_has_position(entries, key);
    }
    assert(0 <= place < after.len() && after[place] == (key, value));
    assert(forall|i: int| 0 <= i < after.len() && i != place ==> after[i] == entries[i]);
    assert(forall|i: int| 0 <= i < entries.len() && i != place ==> (#[trigger] entries[i]).0 != key)
        by {
        assert forall|i: int| 0 <= i < entries.len() && i != place implies (#[trigger] entries[i]).0
            != key by {
            if entries[i].0 == key {
                lemma_position_is_unique(entries, i);
            }
        }
    }
    assert(distinct_keys(after)) by {
        assert forall|i: int, j: int| 0 <= i < j < after.len() implies (#[trigger] after[i]).0 != (
        #[trigger] after[j]).0 by {
            if i != place && j != place {
                assert(entries[i].0 != entries[j].0);
            } else if i == place {
                assert(entries[j].0 != key);
            } else {
                assert(entries[i].0 != key);
            }
        }
    }
    assert(as_map(after) =~= as_map(entries).insert(key, value)) by {
        assert forall|k: Seq<char>| has_key(after, k) <==> (k == key || has_key(entries, k)) by {
            if has_key(after, k) {
                lemma_held_key_has_position(after, k);
                let i = position(after, k);
                if i != place {
                    assert(entries[i].0 == k);
                }
            }
            if k == key {
                assert(after[place].0 == k);
            } else if has_key(entries, k) {
                lemma_held_key_has_position(entries, k);
                let i = position(entries, k);
                assert(after[i].0 == k);
            }
        }
        assert forall|k: Seq<char>| has_key(after, k) implies #[trigger] as_map(after)[k] == as_map(
            entries,
        ).insert(key, value)[k] by {
            lemma_held_key_has_position(after, k);
            let i = position(after, k);
            lemma_position_is_unique(after, i);
            if k == key {
                lemma_position_is_unique(after, place);
            } else {
                assert(i != place);
                assert(entries[i].0 == k);
                lemma_position_is_unique(entries, i);
            }
        }
    }
}

/// The first `count` columns of a row make a record that has their names
/// as keys, no key twice, and under each name the cell of the last of them
/// that has that name.
pub proof fn lemma_zipped_upto(names: Seq<Seq<char>>, values: Seq<ValueModel>, count: int)
    requires
        0 <= count <= names.len(),
        count <= values.len(),
    ensures
        distinct_keys(zipped_upto(names, values, count)),
        forall|key: Seq<char>|
            has_key(zipped_upto(names, values, count), key) <==> exists|i: int|
                0 <= i < count && #[trigger] names[i] == key,
        forall|i: int|
            0 <= i < count && is_last_of_name(names, count, i) ==> (#[trigger] as_map(
                zipped_upto(names, values, count),
            )[names[i]]) == values[i],
    decreases count,
{
    if count > 0 {
        let before = zipped_upto(names, values, count - 1);
        let after = zipped_upto(names, values, count);
        let key = names[count - 1];
        let value = values[count - 1];
        lemma_zipped_upto(names, values, count - 1);
        lemma_inserted_is_map_insert(before, key, value);
        assert(after == inserted(before, key, value));
        assert forall|k: Seq<char>| has_key(after, k) <==> exists|i: int|
            0 <= i < count && #[trigger] names[i] == k by {
            assert(has_key(after, k) <==> as_map(after).dom().contains(k));
            assert(has_key(before, k) <==> as_map(before).dom().contains(k));
            if has_key(before, k) {
                let i = choose|i: int| 0 <= i < count - 1 && #[trigger] names[i] == k;
                assert(0 <= i < count && names[i] == k);
            }
            if k == key {
                assert(names[count - 1] == k);
            }
            if exists|i: int| 0 <= i < count && #[trigger] names[i] == k {
                let i = choose|i: int| 0 <= i < count && #[trigger] names[i] == k;
                if i < count - 1 {
                    assert(0 <= i < count - 1 && names[i] == k);
                }
            }
        }
        assert forall|i: int| 0 <= i < count && is_last_of_name(names, count, i) implies (
        #[trigger] as_map(after)[names[i]]) == values[i] by {
            if i < count - 1 {
                assert(names[count - 1] != names[i]);
                assert(is_last_of_name(names, count - 1, i));
                assert(as_map(before)[names[i]] == values[i]);
            }
        }
    } else {
        let empty = zipped_upto(names, values, count);
        assert(empty.len() == 0);
        assert forall|key: Seq<char>| !has_key(empty, key) by {}
    }
}

/// The record of a row with as many cells as columns: its keys are the
/// names of the columns, none twice, and under each name stands the cell
/// of the last column of that name.
pub proof fn lemma_row_record(names: Seq<Seq<char>>, values: Seq<ValueModel>)
    requires
        names.len() == values.len(),
    ensures
        distinct_keys(zipped(names, values)),
        forall|key: Seq<char>| has_key(zipped(names, values), key) <==> names.contains(key),
        forall|i: int|
            0 <= i < names.len() && is_last_of_name(names, names.len() as int, i) ==> (
            #[trigger] as_map(zipped(names, values))[names[i]]) == values[i],
{
    let count = names.len() as int;
    lemma_zipped_upto(names, values, count);
    assert forall|key: Seq<char>| has_key(zipped(names, values), key) <==> names.contains(
        key,
    ) by {
        if has_key(zipped(names, values), key) {
            let i = choose|i: int| 0 <= i < count && #[trigger] names[i] == key;
            assert(names[i] == key);
        }
        if names.contains(key) {
            let i = choose|i: int| 0 <= i < names.len() && names[i] == key;
            assert(0 <= i < count && names[i] == key);
        }
    }
}

/// Where the columns of a row have distinct names, its record holds them
/// one by one, in the order of the statement.
pub proof fn lemma_zipped_distinct_names(
    names: Seq<Seq<char>>,
    values: Seq<ValueModel>,
    count: int,
)
    requires
        0 <= count <= names.len(),
        count <= values.len(),
        forall|i: int, j: int| 0 <= i < j < count ==> #[trigger] names[i] != #[trigger] names[j],
    ensures
        zipped_upto(names, values, count) == Seq::new(
            count as nat,
            |i: int| (names[i], values[i]),
        ),
    decreases count,
{
    let after = zipped_upto(names, values, count);
    let listed = Seq::new(count as nat, |i: int| (names[i], values[i]));
    if count > 0 {
        let before = zipped_upto(names, values, count - 1);
        lemma_zipped_distinct_names(names, values, count - 1);
        lemma_zipped_upto(names, values, count - 1);
        let key = names[count - 1];
        if has_key(before, key) {
            let i = choose|i: int| 0 <= i < count - 1 && #[trigger] names[i] == key;
            assert(names[i] != names[count - 1]);
        }
        assert(after == before.push((key, values[count - 1])));
        assert(after =~= listed);
    } else {
        assert(after =~= listed);
    }
}

/// One column of a row: its name and the value in it.
#[derive(Debug, PartialEq)]
pub struct Entry {
    pub key: String,
    pub value: UntypedValue,
}

/// One row of a result: an ordered mapping from column name to value.
///
/// The columns stand in the order of the statement. No name occurs twice:
/// where a statement gives two columns one name, the name keeps the place
/// of the first and holds the value of the last.
#[derive(Debug, PartialEq)]
pub struct Record {
    entries: Vec<Entry>,
}

impl View for Record {
    type V = RecordModel;

    closed spec fn view(&self) -> RecordModel {
        self.entries@.map_values(|entry: Entry| (entry.key@, entry.value@))
    }
}

impl Record {
    /// Whether the record is well formed: no column name occurs twice.
    pub open spec fn wf(&self) -> bool {
        distinct_keys(self@)
    }

    /// A record without columns.
    pub fn new() -> (record: Record)
        ensures
            record@ == RecordModel::empty(),
            record.wf(),
    {
        Record { entries: Vec::new() }
    }

    /// Makes a record of the columns of one row: `columns` gives the names,
    /// `cells` the values, pair by pair, as far as both reach.
    pub fn from_row(columns: &Vec<String>, cells: Vec<UntypedValue>) -> (record: Record)
        ensures
            record.wf(),
            record@ == zipped(texts(columns@), models(cells@)),
    {
        let mut record = Record::new();
        let ghost names = texts(columns@);
        let ghost values = models(cells@);
        let total = cells.len();
        let mut done: usize = 0;
        for cell in it: cells.into_iter()
            invariant
                names == texts(columns@),
                values == models(it.seq()),
                done == it.index(),
                it.seq().len() == total,
                record.wf(),
                done <= columns@.len() ==> record@ == zipped_upto(names, values, done as int),
                done > columns@.len() ==> record@ == zipped_upto(
                    names,
                    values,
                    columns@.len() as int,
                ),
        {
            if done < columns.len() {
                record.insert(columns[done].clone(), cell);
            }
            done = done + 1;
        }
        record
    }

    /// The number of columns.
    pub fn len(&self) -> (count: usize)
        ensures
            count == self@.len(),
    {
        self.entries.len()
    }

    /// The place of `key`, if the record has it.
    fn find(&self, key: &String) -> (found: Option<usize>)
        ensures
            found is Some <==> has_key(self@, key@),
            found matches Some(i) ==> i == position(self@, key@) && is_first_place(
                self@,
                key@,
                i as int,
            ),
    {
        let mut i: usize = 0;
        while i < self.entries.len()
            invariant
                i <= self.entries@.len(),
                self@ == self.entries@.map_values(|entry: Entry| (entry.key@, entry.value@)),
                forall|k: int| 0 <= k < i ==> (#[trigger] self@[k]).0 != key@,
            decreases self.entries@.len() - i,
        {
            if self.entries[i].key == *key {
                proof {
                    assert(self@[i as int].0 == key@);
                    lemma_first_place_is_position(self@, key@, i as int);
                }
                return Some(i);
            }
            i = i + 1;
        }
        None
    }

    /// Gives `key` the value `value`. A key that is there keeps its place
    /// and takes the new value; a new key comes last.
    pub fn insert(&mut self, key: String, value: UntypedValue)
        ensures
            final(self)@ == inserted(old(self)@, key@, value@),
            old(self).wf() ==> final(self).wf(),
    {
        let found = self.find(&key);
        proof {
            if old(self).wf() {
                lemma_inserted_is_map_insert(old(self)@, key@, value@);
            }
        }
        match found {
            Some(i) => {
                let ghost before = self@;
                self.entries.set(i, Entry { key, value });
                assert(self@ =~= before.update(i as int, (key@, value@)));
            },
            None => {
                let ghost before = self@;
                self.entries.push(Entry { key, value });
                assert(self@ =~= before.push((key@, value@)));
            },
        }
    }

    /// The value of the column `key`, if the record has that column.
    pub fn get(&self, key: &str) -> (value: Option<&UntypedValue>)
        ensures
            value is Some <==> has_key(self@, key@),
            value matches Some(held) ==> held@ == as_map(self@)[key@],
    {
        let wanted = String::from_str(key);
        match self.find(&wanted) {
            Some(i) => Some(&self.entries[i].value),
            None => None,
        }
    }

    /// The column at place `index`, counted from 0: its name and its value.
    pub fn entry(&self, index: usize) -> (column: Option<&Entry>)
        ensures
            column is Some <==> index < self@.len(),
            column matches Some(entry) ==> (entry.key@, entry.value@) == self@[index as int],
    {
        if index < self.entries.len() {
            Some(&self.entries[index])
        } else {
            None
        }
    }

    /// Hands the columns out, in order.
    pub fn into_entries(self) -> (entries: Vec<Entry>)
        ensures
            entries@.map_values(|entry: Entry| (entry.key@, entry.value@)) == self@,
    {
        self.entries
    }
}

} // verus!
