//! A storage that keeps its objects in memory. It is reliable: its medium
//! never fails, so it follows the storage rules exactly.

use vstd::prelude::*;
use crate::errors::StorageErrors;
use crate::manager::{Objects, StorageManager};
use crate::names::check_filename;
use crate::message::copy_range;

verus! {

/// One stored object.
struct StoredObject {
    name: String,
    content: Vec<u8>,
}

/// Objects kept in memory, in the order in which they were stored. No name
/// occurs twice.
pub struct MemoryStorage {
    entries: Vec<StoredObject>,
}

/// Whether no two entries have the same name.
spec fn distinct_names(entries: Seq<StoredObject>) -> bool {
    forall|i: int, j: int|
        0 <= i < j < entries.len() ==> (#[trigger] entries[i]).name@ != (#[trigger] entries[j]).name@
}

/// Whether some entry has the name `name`.
spec fn has_name(entries: Seq<StoredObject>, name: Seq<char>) -> bool {
    exists|i: int| 0 <= i < entries.len() && (#[trigger] entries[i]).name@ == name
}

/// The index of an entry with the name `name`.
spec fn slot_of(entries: Seq<StoredObject>, name: Seq<char>) -> int {
    choose|i: int| 0 <= i < entries.len() && (#[trigger] entries[i]).name@ == name
}

/// The objects that a list of entries holds.
spec fn objects_of(entries: Seq<StoredObject>) -> Objects {
    Map::new(
        |name: Seq<char>| has_name(entries, name),
        |name: Seq<char>| entries[slot_of(entries, name)].content@,
    )
}

proof fn lemma_slot(entries: Seq<StoredObject>, i: int)
    requires
        distinct_names(entries),
        0 <= i < entries.len(),
    ensures
        has_name(entries, entries[i].name@),
        slot_of(entries, entries[i].name@) == i,
{
    let name = entries[i].name@;
    let s = slot_of(entries, name);
    assert(0 <= s < entries.len() && entries[s].name@ == name);
    if s < i {
        assert(entries[s].name@ != entries[i].name@);
    } else if i < s {
        assert(entries[i].name@ != entries[s].name@);
    }
}

proof fn lemma_objects_after_push(entries: Seq<StoredObject>, entry: StoredObject)
    requires
        distinct_names(entries),
        !has_name(entries, entry.name@),
    ensures
        distinct_names(entries.push(entry)),
        objects_of(entries.push(entry)) == objects_of(entries).insert(entry.name@, entry.content@),
{
    let after = entries.push(entry);
    let last = entries.len() as int;
    assert forall|i: int, j: int| 0 <= i < j < after.len() implies (#[trigger] after[i]).name@ != (
    #[trigger] after[j]).name@ by {
        if j == last {
            assert(after[i] == entries[i]);
            if entries[i].name@ == entry.name@ {
                assert(has_name(entries, entry.name@));
            }
        } else {
            assert(after[i] == entries[i] && after[j] == entries[j]);
        }
    }
    let expected = objects_of(entries).insert(entry.name@, entry.content@);
    assert forall|name: Seq<char>| objects_of(after).contains_key(name) == expected.contains_key(
        name,
    ) by {
        if has_name(after, name) {
            let i = slot_of(after, name);
            if i != last {
                assert(entries[i] == after[i]);
                assert(has_name(entries, name));
            }
        }
        if has_name(entries, name) {
            let i = slot_of(entries, name);
            assert(after[i] == entries[i]);
            assert(has_name(after, name));
        }
        if name == entry.name@ {
            assert(after[last].name@ == name);
            assert(has_name(after, name));
        }
    }
    assert forall|name: Seq<char>| objects_of(after).contains_key(name) implies objects_of(
        after,
    )[name] == expected[name] by {
        let i = slot_of(after, name);
        assert(0 <= i < after.len() && after[i].name@ == name);
        if i == last {
            assert(name == entry.name@);
        } else {
            assert(after[i] == entries[i]);
            lemma_slot(entries, i);
            assert(name != entry.name@);
        }
    }
    assert(objects_of(after) =~= expected);
}

proof fn lemma_objects_after_remove(entries: Seq<StoredObject>, at: int)
    requires
        distinct_names(entries),
        0 <= at < entries.len(),
    ensures
        distinct_names(entries.remove(at)),
        objects_of(entries.remove(at)) == objects_of(entries).remove(entries[at].name@),
{
    let after = entries.remove(at);
    let gone = entries[at].name@;
    assert forall|i: int| 0 <= i < after.len() implies after[i] == entries[if i < at {
        i
    } else {
        i + 1
    }] by {}
    assert forall|i: int, j: int| 0 <= i < j < after.len() implies (#[trigger] after[i]).name@ != (
    #[trigger] after[j]).name@ by {
        let oi = if i < at { i } else { i + 1 };
        let oj = if j < at { j } else { j + 1 };
        assert(after[i] == entries[oi] && after[j] == entries[oj]);
        assert(entries[oi].name@ != entries[oj].name@);
    }
    let expected = objects_of(entries).remove(gone);
    assert forall|name: Seq<char>| objects_of(after).contains_key(name) == expected.contains_key(
        name,
    ) by {
        if has_name(after, name) {
            let i = slot_of(after, name);
            let oi = if i < at { i } else { i + 1 };
            assert(after[i] == entries[oi]);
            assert(has_name(entries, name));
            if name == gone {
                if oi < at {
                    assert(entries[oi].name@ != entries[at].name@);
                } else {
                    assert(entries[at].name@ != entries[oi].name@);
                }
            }
        }
        if has_name(entries, name) && name != gone {
            let oi = slot_of(entries, name);
            let i = if oi < at { oi } else { oi - 1 };
            assert(after[i] == entries[oi]);
            assert(has_name(after, name));
        }
    }
    assert forall|name: Seq<char>| objects_of(after).contains_key(name) implies objects_of(
        after,
    )[name] == expected[name] by {
        let i = slot_of(after, name);
        assert(0 <= i < after.len() && after[i].name@ == name);
        let oi = if i < at { i } else { i + 1 };
        assert(after[i] == entries[oi]);
        lemma_slot(entries, oi);
    }
    assert(objects_of(after) =~= expected);
}

impl MemoryStorage {
    #[verifier::type_invariant]
    spec fn well_formed(self) -> bool {
        distinct_names(self.entries@)
    }

    /// A storage that holds no object.
    pub fn new() -> (storage: MemoryStorage)
        ensures
            storage.objects() == Map::<Seq<char>, Seq<u8>>::empty(),
    {
        let storage = MemoryStorage { entries: Vec::new() };
        assert(storage.objects() =~= Map::<Seq<char>, Seq<u8>>::empty());
        storage
    }

    /// The number of objects that are stored.
    pub fn len(&self) -> (n: usize)
        ensures
            n == self.objects().dom().len(),
            self.objects().dom().finite(),
    {
        proof {
            use_type_invariant(self);
            lemma_objects_count(self.entries@);
        }
        self.entries.len()
    }

    /// The index of the entry named `filename`, if there is one.
    fn position(&self, filename: &String) -> (r: Option<usize>)
        ensures
            match r {
                Some(i) => i < self.entries@.len() && self.entries@[i as int].name@ == filename@,
                None => !has_name(self.entries@, filename@),
            },
    {
        let mut i: usize = 0;
        while i < self.entries.len()
            invariant
                0 <= i <= self.entries@.len(),
                forall|j: int| 0 <= j < i ==> (#[trigger] self.entries@[j]).name@ != filename@,
            decreases self.entries@.len() - i,
        {
            if self.entries[i].name == *filename {
                return Some(i);
            }
            i = i + 1;
        }
        None
    }
}

proof fn lemma_objects_count(entries: Seq<StoredObject>)
    requires
        distinct_names(entries),
    ensures
        objects_of(entries).dom().finite(),
        objects_of(entries).dom().len() == entries.len(),
    decreases entries.len(),
{
    if entries.len() == 0 {
        assert(objects_of(entries).dom() =~= Set::<Seq<char>>::empty());
    } else {
        let front = entries.drop_last();
        let last = entries.last();
        assert forall|i: int, j: int| 0 <= i < j < front.len() implies (#[trigger] front[i]).name@
            != (#[trigger] front[j]).name@ by {
            assert(front[i] == entries[i] && front[j] == entries[j]);
        }
        if has_name(front, last.name@) {
            let i = slot_of(front, last.name@);
            assert(front[i] == entries[i]);
            assert(entries[i].name@ != entries[entries.len() - 1].name@);
        }
        assert(entries =~= front.push(last));
        lemma_objects_after_push(front, last);
        lemma_objects_count(front);
        assert(!objects_of(front).dom().contains(last.name@));
        assert(objects_of(entries).dom() =~= objects_of(front).dom().insert(last.name@));
    }
}

impl StorageManager for MemoryStorage {
    closed spec fn objects(&self) -> Objects {
        objects_of(self.entries@)
    }

    open spec fn reliable(&self) -> bool {
        true
    }

    /// Stores the object unless its name is taken or is no object name.
    /// Nothing else can fail.
    fn store_file(&mut self, filename: &String, content: &Vec<u8>) -> (r: Result<(), StorageErrors>) {
        proof {
            use_type_invariant(&*self);
        }
        if !check_filename(filename) {
            return Err(StorageErrors::UnknownError);
        }
        match self.position(filename) {
            Some(_) => {
                assert(has_name(self.entries@, filename@));
                Err(StorageErrors::AlreadyExists)
            },
            None => {
                let entry = StoredObject {
                    name: filename.clone(),
                    content: copy_range(content, 0, content.len()),
                };
                proof {
                    assert(entry.content@ =~= content@);
                    lemma_objects_after_push(self.entries@, entry);
                }
                let mut entries: Vec<StoredObject> = Vec::new();
                std::mem::swap(&mut entries, &mut self.entries);
                entries.push(entry);
                std::mem::swap(&mut entries, &mut self.entries);
                Ok(())
            },
        }
    }

    /// Removes the object if it is stored. Nothing else can fail.
    fn delete_file(&mut self, filename: &String) -> (r: Result<(), StorageErrors>) {
        proof {
            use_type_invariant(&*self);
        }
        if !check_filename(filename) {
            return Err(StorageErrors::NotFound);
        }
        match self.position(filename) {
            None => Err(StorageErrors::NotFound),
            Some(i) => {
                proof {
                    assert(has_name(self.entries@, filename@));
                    lemma_objects_after_remove(self.entries@, i as int);
                }
                let mut entries: Vec<StoredObject> = Vec::new();
                std::mem::swap(&mut entries, &mut self.entries);
                let _ = entries.remove(i);
                std::mem::swap(&mut entries, &mut self.entries);
                Ok(())
            },
        }
    }

    /// Returns the content if the object is stored. Nothing else can fail.
    fn get_file(&self, filename: &String) -> (r: Result<Vec<u8>, StorageErrors>) {
        proof {
            use_type_invariant(self);
        }
        if !check_filename(filename) {
            return Err(StorageErrors::NotFound);
        }
        match self.position(filename) {
            None => Err(StorageErrors::NotFound),
            Some(i) => {
                proof {
                    assert(has_name(self.entries@, filename@));
                    lemma_slot(self.entries@, i as int);
                }
                let content = &self.entries[i].content;
                let copy = copy_range(content, 0, content.len());
                assert(copy@ =~= content@);
                Ok(copy)
            },
        }
    }
}

} // verus!
