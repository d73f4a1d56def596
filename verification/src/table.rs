//! The table of embedded files: built once, read-only afterwards.

use vstd::prelude::*;
use crate::asset::{FileView, GetFromVite, ViteFile};
use crate::respond::{is_canonical, normalize_path};

verus! {

/// Why a file was not added to the table.
#[derive(Clone, Copy, Debug, PartialEq, Eq, Structural)]
pub enum TableError {
    /// The key is not a request path in canonical form: it is empty,
    /// starts with `/`, or holds `?` or `#`.
    KeyNotCanonical,
    /// The table already holds a file under that key.
    DuplicateKey,
    /// The file's recorded length is not the length of its content.
    LengthMismatch,
}

struct Entry {
    key: String,
    file: ViteFile,
}

/// A mapping from request key to file. Every key is a canonical request
/// path, no key occurs twice, and every file's recorded length is exact.
pub struct AssetTable {
    entries: Vec<Entry>,
}

/// The position of `key` among the first `n` entries, if it is there.
spec fn position(entries: Seq<Entry>, key: Seq<char>, n: int) -> Option<int>
    decreases n,
{
    if n <= 0 {
        None
    } else if entries[n - 1].key@ == key {
        Some(n - 1)
    } else {
        position(entries, key, n - 1)
    }
}

proof fn position_found(entries: Seq<Entry>, key: Seq<char>, n: int)
    requires
        0 <= n <= entries.len(),
    ensures
        match position(entries, key, n) {
            Some(i) => 0 <= i < n && entries[i].key@ == key,
            None => forall|i: int| 0 <= i < n ==> entries[i].key@ != key,
        },
    decreases n,
{
    if n > 0 && entries[n - 1].key@ != key {
        position_found(entries, key, n - 1);
    }
}

proof fn position_unique(entries: Seq<Entry>, key: Seq<char>, i: int)
    requires
        0 <= i < entries.len(),
        entries[i].key@ == key,
        forall|a: int, b: int|
            0 <= a < b < entries.len() ==> (#[trigger] entries[a]).key@ != (#[trigger] entries[b]).key@,
    ensures
        position(entries, key, entries.len() as int) == Some(i),
{
    position_found(entries, key, entries.len() as int);
}

impl AssetTable {
    /// What holds of every table: keys are canonical and distinct, and
    /// recorded lengths are exact.
    #[verifier::type_invariant]
    pub closed spec fn inv(self) -> bool {
        &&& forall|a: int, b: int|
            0 <= a < b < self.entries@.len() ==> (#[trigger] self.entries@[a]).key@
                != (#[trigger] self.entries@[b]).key@
        &&& forall|i: int|
            0 <= i < self.entries@.len() ==> (#[trigger] self.entries@[i]).file.well_formed()
        &&& forall|i: int|
            0 <= i < self.entries@.len() ==> is_canonical((#[trigger] self.entries@[i]).key@)
    }

    /// The keys in the order in which they were inserted.
    pub closed spec fn key_order(&self) -> Seq<Seq<char>> {
        Seq::new(self.entries@.len(), |i: int| self.entries@[i].key@)
    }

    /// The table as a mathematical map.
    pub closed spec fn view(&self) -> Map<Seq<char>, FileView> {
        Map::new(
            |key: Seq<char>| position(self.entries@, key, self.entries@.len() as int) is Some,
            |key: Seq<char>|
                self.entries@[position(self.entries@, key, self.entries@.len() as int)->0].file@,
        )
    }

    /// The key order lists exactly the keys of the map, each once.
    pub proof fn key_order_is_domain(&self)
        ensures
            forall|key: Seq<char>| self@.dom().contains(key) <==> self.key_order().contains(key),
    {
        assert forall|key: Seq<char>| self@.dom().contains(key) <==> self.key_order().contains(
            key,
        ) by {
            position_found(self.entries@, key, self.entries@.len() as int);
            if self@.dom().contains(key) {
                let i = position(self.entries@, key, self.entries@.len() as int)->0;
                assert(self.key_order()[i] == key);
            }
            if self.key_order().contains(key) {
                let i = choose|i: int| 0 <= i < self.key_order().len() && self.key_order()[i] == key;
                assert(self.entries@[i].key@ == key);
            }
        }
    }

    /// An empty table.
    pub fn new() -> (table: AssetTable)
        ensures
            table@ == Map::<Seq<char>, FileView>::empty(),
            table.key_order() == Seq::<Seq<char>>::empty(),
    {
        let table = AssetTable { entries: Vec::new() };
        assert(table@ =~= Map::<Seq<char>, FileView>::empty());
        assert(table.key_order() =~= Seq::<Seq<char>>::empty());
        table
    }

    /// The number of keys.
    pub fn len(&self) -> (n: usize)
        ensures
            n == self.key_order().len(),
    {
        self.entries.len()
    }

    fn find(&self, key: &String) -> (found: Option<usize>)
        ensures
            match found {
                Some(i) => i < self.entries@.len() && position(
                    self.entries@,
                    key@,
                    self.entries@.len() as int,
                ) == Some(i as int),
                None => position(self.entries@, key@, self.entries@.len() as int) is None,
            },
    {
        proof {
            use_type_invariant(self);
        }
        let mut i: usize = 0;
        while i < self.entries.len()
            invariant
                i <= self.entries@.len(),
                forall|j: int| 0 <= j < i ==> self.entries@[j].key@ != key@,
            decreases self.entries@.len() - i,
        {
            if self.entries[i].key == *key {
                proof {
                    use_type_invariant(self);
                    position_unique(self.entries@, key@, i as int);
                }
                return Some(i);
            }
            i += 1;
        }
        proof {
            position_found(self.entries@, key@, self.entries@.len() as int);
        }
        None
    }

    /// Whether the table holds a file under `key`.
    pub fn contains_key(&self, key: &str) -> (held: bool)
        ensures
            held == self@.dom().contains(key@),
    {
        let owned = key.to_owned();
        self.find(&owned).is_some()
    }

    /// The error for which `file` cannot be added under `key`, if there is
    /// one: the key is looked at first, then the file.
    pub open spec fn refusal(&self, key: Seq<char>, file: ViteFile) -> Option<TableError> {
        if !is_canonical(key) {
            Some(TableError::KeyNotCanonical)
        } else if self@.dom().contains(key) {
            Some(TableError::DuplicateKey)
        } else if !file.well_formed() {
            Some(TableError::LengthMismatch)
        } else {
            None
        }
    }

    /// Adds `file` under `key`. A key that is not canonical or is already
    /// taken, or a file whose recorded length is not that of its content,
    /// is refused and leaves the table as it was.
    pub fn insert(&mut self, key: String, file: ViteFile) -> (added: Result<(), TableError>)
        ensures
            match old(self).refusal(key@, file) {
                Some(error) => added == Err::<(), TableError>(error) && final(self)@ == old(self)@
                    && final(self).key_order() == old(self).key_order(),
                None => added is Ok && final(self)@ == old(self)@.insert(key@, file@)
                    && final(self).key_order() == old(self).key_order().push(key@),
            },
    {
        proof {
            use_type_invariant(&*self);
        }
        if normalize_path(key.as_str()) != key {
            return Err(TableError::KeyNotCanonical);
        }
        if self.find(&key).is_some() {
            return Err(TableError::DuplicateKey);
        }
        if file.bytes.len() as u64 != file.content_length {
            return Err(TableError::LengthMismatch);
        }
        let ghost before = self.entries@;
        let ghost key_text = key@;
        let ghost file_view = file@;
        let mut entries: Vec<Entry> = Vec::new();
        std::mem::swap(&mut self.entries, &mut entries);
        entries.push(Entry { key, file });
        proof {
            position_found(before, key_text, before.len() as int);
            assert forall|a: int, b: int| 0 <= a < b < entries@.len() implies (#[trigger] entries@[a]).key@
                != (#[trigger] entries@[b]).key@ by {
                if b < before.len() {
                    assert(entries@[a] == before[a] && entries@[b] == before[b]);
                } else {
                    assert(entries@[a] == before[a]);
                }
            }
            assert forall|i: int| 0 <= i < entries@.len() implies (#[trigger] entries@[i]).file.well_formed() by {
                if i < before.len() {
                    assert(entries@[i] == before[i]);
                }
            }
            assert forall|i: int| 0 <= i < entries@.len() implies is_canonical(
                (#[trigger] entries@[i]).key@,
            ) by {
                if i < before.len() {
                    assert(entries@[i] == before[i]);
                }
            }
        }
        std::mem::swap(&mut self.entries, &mut entries);
        proof {
            let after = self.entries@;
            assert(before == old(self).entries@);
            assert(after == before.push(after[before.len() as int]));
            let grown = old(self)@.insert(key_text, file_view);
            assert forall|k: Seq<char>| #[trigger]
                self@.dom().contains(k) == grown.dom().contains(k) && (self@.dom().contains(k)
                    ==> self@[k] == grown[k]) by {
                position_same_prefix(before, after, k, before.len() as int);
                position_found(before, k, before.len() as int);
            }
            assert(self@ =~= grown);
            assert(self.key_order() =~= old(self).key_order().push(key_text));
        }
        Ok(())
    }

    /// Every key of the table is canonical.
    pub proof fn keys_are_canonical(&self, key: Seq<char>)
        requires
            self.inv(),
            self@.dom().contains(key),
        ensures
            is_canonical(key),
    {
        position_found(self.entries@, key, self.entries@.len() as int);
    }

    /// The keys, in insertion order. No key stands twice, and each is
    /// canonical.
    pub fn keys(&self) -> (keys: Vec<String>)
        ensures
            keys@.len() == self.key_order().len(),
            forall|i: int| 0 <= i < keys@.len() ==> (#[trigger] keys@[i])@ == self.key_order()[i],
            forall|i: int| 0 <= i < keys@.len() ==> is_canonical((#[trigger] keys@[i])@),
            forall|a: int, b: int|
                0 <= a < b < keys@.len() ==> (#[trigger] keys@[a])@ != (#[trigger] keys@[b])@,
    {
        proof {
            use_type_invariant(self);
        }
        let mut keys: Vec<String> = Vec::new();
        let mut i: usize = 0;
        while i < self.entries.len()
            invariant
                i <= self.entries@.len(),
                keys@.len() == i,
                forall|j: int| 0 <= j < i ==> (#[trigger] keys@[j])@ == self.entries@[j].key@,
            decreases self.entries@.len() - i,
        {
            keys.push(self.entries[i].key.clone());
            i += 1;
        }
        keys
    }

    /// The file stored under `key`. Only canonical keys hold files.
    pub fn lookup(&self, key: &str) -> (file: Option<ViteFile>)
        ensures
            match file {
                Some(found) => self@.dom().contains(key@) && found@ == self@[key@]
                    && found.well_formed() && is_canonical(key@),
                None => !self@.dom().contains(key@),
            },
    {
        proof {
            use_type_invariant(self);
        }
        let owned = key.to_owned();
        match self.find(&owned) {
            Some(i) => {
                proof {
                    position_found(self.entries@, key@, self.entries@.len() as int);
                    assert(is_canonical(self.entries@[i as int].key@));
                }
                Some(self.entries[i].file.duplicate())
            },
            None => None,
        }
    }
}

proof fn position_same_prefix(before: Seq<Entry>, after: Seq<Entry>, key: Seq<char>, n: int)
    requires
        0 <= n <= before.len() <= after.len(),
        forall|i: int| 0 <= i < before.len() ==> before[i] == after[i],
    ensures
        position(after, key, n) == position(before, key, n),
    decreases n,
{
    if n > 0 {
        position_same_prefix(before, after, key, n - 1);
    }
}

impl GetFromVite for AssetTable {
    /// A table yields what it holds under the key, and nothing else.
    open spec fn may_yield(&self, key: Seq<char>, file: Option<FileView>) -> bool {
        file == if self@.dom().contains(key) {
            Some(self@[key])
        } else {
            None
        }
    }

    fn get(&self, file_path: &str) -> (file: Option<ViteFile>) {
        self.lookup(file_path)
    }
}

} // verus!
