//! The bundler's manifest: which output file each source entry became.

use vstd::prelude::*;
use crate::text::to_chars;

verus! {

/// One entry of the manifest.
#[allow(non_snake_case)]
#[derive(Debug)]
pub struct ViteManifestEntry {
    /// Script content to load for this entry.
    pub file: String,
    /// Script content to load lazily for this entry.
    pub dynamicImports: Option<Vec<String>>,
    /// Style content to load for this entry.
    pub css: Option<Vec<String>>,
    /// If true, this content is loaded eagerly.
    pub isEntry: Option<bool>,
    /// If true, this content is loaded lazily.
    pub isDynamicEntry: Option<bool>,
}

/// The manifest: entries by the key of their source. A key has at most one
/// entry; inserting under a key that is taken replaces what was there.
#[derive(Debug)]
pub struct ViteManifest {
    entries: Vec<(String, ViteManifestEntry)>,
}

/// The first position at or after `from` whose key is `key`.
spec fn first_position(
    entries: Seq<(String, ViteManifestEntry)>,
    key: Seq<char>,
    from: int,
) -> Option<int>
    decreases entries.len() - from,
{
    if from < 0 || from >= entries.len() {
        None
    } else if entries[from].0@ == key {
        Some(from)
    } else {
        first_position(entries, key, from + 1)
    }
}

proof fn first_position_found(entries: Seq<(String, ViteManifestEntry)>, key: Seq<char>, from: int)
    requires
        0 <= from,
    ensures
        match first_position(entries, key, from) {
            Some(i) => from <= i < entries.len() && entries[i].0@ == key && forall|j: int|
                from <= j < i ==> entries[j].0@ != key,
            None => forall|j: int| from <= j < entries.len() ==> entries[j].0@ != key,
        },
    decreases entries.len() - from,
{
    if from < entries.len() && entries[from].0@ != key {
        first_position_found(entries, key, from + 1);
    }
}

proof fn first_position_is(
    entries: Seq<(String, ViteManifestEntry)>,
    key: Seq<char>,
    from: int,
    at: int,
)
    requires
        0 <= from <= at < entries.len(),
        entries[at].0@ == key,
        forall|j: int| from <= j < at ==> entries[j].0@ != key,
    ensures
        first_position(entries, key, from) == Some(at),
    decreases at - from,
{
    if from < at {
        first_position_is(entries, key, from + 1, at);
    }
}

proof fn first_position_none(entries: Seq<(String, ViteManifestEntry)>, key: Seq<char>, from: int)
    requires
        0 <= from,
        forall|j: int| from <= j < entries.len() ==> entries[j].0@ != key,
    ensures
        first_position(entries, key, from) is None,
    decreases entries.len() - from,
{
    if from < entries.len() {
        first_position_none(entries, key, from + 1);
    }
}

impl View for ViteManifest {
    type V = Map<Seq<char>, ViteManifestEntry>;

    closed spec fn view(&self) -> Map<Seq<char>, ViteManifestEntry> {
        Map::new(
            |key: Seq<char>| first_position(self.entries@, key, 0) is Some,
            |key: Seq<char>| self.entries@[first_position(self.entries@, key, 0)->0].1,
        )
    }
}

impl ViteManifest {
    #[verifier::type_invariant]
    spec fn inv(self) -> bool {
        forall|a: int, b: int|
            0 <= a < b < self.entries@.len() ==> (#[trigger] self.entries@[a]).0@
                != (#[trigger] self.entries@[b]).0@
    }

    /// A manifest without entries.
    pub fn new() -> (manifest: ViteManifest)
        ensures
            manifest@ == Map::<Seq<char>, ViteManifestEntry>::empty(),
    {
        let manifest = ViteManifest { entries: Vec::new() };
        assert(manifest@ =~= Map::<Seq<char>, ViteManifestEntry>::empty());
        manifest
    }

    fn find(&self, key: &String) -> (found: Option<usize>)
        ensures
            match found {
                Some(i) => i < self.entries@.len() && first_position(self.entries@, key@, 0)
                    == Some(i as int),
                None => first_position(self.entries@, key@, 0) is None,
            },
    {
        let mut i: usize = 0;
        while i < self.entries.len()
            invariant
                i <= self.entries@.len(),
                forall|j: int| 0 <= j < i ==> self.entries@[j].0@ != key@,
            decreases self.entries@.len() - i,
        {
            if self.entries[i].0 == *key {
                proof {
                    first_position_is(self.entries@, key@, 0, i as int);
                }
                return Some(i);
            }
            i += 1;
        }
        proof {
            first_position_none(self.entries@, key@, 0);
        }
        None
    }

    /// Stores `entry` under `key`, in place of what was stored there.
    pub fn insert(&mut self, key: String, entry: ViteManifestEntry)
        ensures
            final(self)@ == old(self)@.insert(key@, entry),
    {
        proof {
            use_type_invariant(&*self);
        }
        let ghost before = self.entries@;
        let ghost key_text = key@;
        let ghost grown = self@.insert(key@, entry);
        let found = self.find(&key);
        let mut entries: Vec<(String, ViteManifestEntry)> = Vec::new();
        std::mem::swap(&mut self.entries, &mut entries);
        proof {
            first_position_found(before, key_text, 0);
        }
        match found {
            Some(i) => {
                entries.set(i, (key, entry));
                proof {
                    assert forall|j: int| 0 <= j < before.len() implies before[j].0@
                        == entries@[j].0@ by {}
                }
            },
            None => {
                entries.push((key, entry));
                proof {
                    assert forall|a: int, b: int| 0 <= a < b < entries@.len() implies (
                    #[trigger] entries@[a]).0@ != (#[trigger] entries@[b]).0@ by {
                        assert(entries@[a] == before[a]);
                        if b < before.len() {
                            assert(entries@[b] == before[b]);
                        }
                    }
                }
            },
        }
        std::mem::swap(&mut self.entries, &mut entries);
        proof {
            let after = self.entries@;
            assert forall|k: Seq<char>| #[trigger]
                self@.dom().contains(k) == grown.dom().contains(k) && (self@.dom().contains(k)
                    ==> self@[k] == grown[k]) by {
                first_position_found(before, k, 0);
                match found {
                    Some(i) => {
                        same_keys_same_position(before, after, k, 0);
                    },
                    None => {
                        match first_position(before, k, 0) {
                            Some(at) => {
                                assert(after[at] == before[at]);
                                assert forall|j: int| 0 <= j < at implies after[j].0@ != k by {
                                    assert(after[j] == before[j]);
                                }
                                first_position_is(after, k, 0, at);
                            },
                            None => {
                                assert forall|j: int| 0 <= j < before.len() implies after[j].0@
                                    != k by {
                                    assert(after[j] == before[j]);
                                }
                                if k == key_text {
                                    first_position_is(after, k, 0, before.len() as int);
                                } else {
                                    first_position_none(after, k, 0);
                                }
                            },
                        }
                    },
                }
            }
            assert(self@ =~= grown);
        }
    }

    /// The entry stored under `key`.
    pub fn get(&self, key: &str) -> (entry: Option<&ViteManifestEntry>)
        ensures
            match entry {
                Some(entry) => self@.dom().contains(key@) && *entry == self@[key@],
                None => !self@.dom().contains(key@),
            },
    {
        let owned = key.to_owned();
        match self.find(&owned) {
            Some(i) => Some(&self.entries[i].1),
            None => None,
        }
    }

    /// The keys of all entries, each once.
    pub fn keys(&self) -> (keys: Vec<String>)
        ensures
            forall|key: Seq<char>|
                self@.dom().contains(key) <==> exists|i: int|
                    0 <= i < keys@.len() && (#[trigger] keys@[i])@ == key,
            forall|a: int, b: int|
                0 <= a < b < keys@.len() ==> (#[trigger] keys@[a])@ != (#[trigger] keys@[b])@,
    {
        proof {
            use_type_invariant(self);
        }
        let mut keys: Vec<String> = Vec::new();
        let mut i: usize = 0;
        while i < self.entries.len()
            invariant
                i <= self.entries@.len(),
                keys@.len() == i,
                forall|j: int| 0 <= j < i ==> (#[trigger] keys@[j])@ == self.entries@[j].0@,
            decreases self.entries@.len() - i,
        {
            keys.push(self.entries[i].0.clone());
            i += 1;
        }
        proof {
            assert forall|key: Seq<char>|
                self@.dom().contains(key) <==> exists|i: int|
                    0 <= i < keys@.len() && (#[trigger] keys@[i])@ == key by {
                first_position_found(self.entries@, key, 0);
                if self@.dom().contains(key) {
                    let at = first_position(self.entries@, key, 0)->0;
                    assert(keys@[at]@ == key);
                }
                if exists|i: int| 0 <= i < keys@.len() && (#[trigger] keys@[i])@ == key {
                    let at = choose|i: int| 0 <= i < keys@.len() && (#[trigger] keys@[i])@ == key;
                    assert(self.entries@[at].0@ == key);
                }
            }
        }
        keys
    }
}

proof fn same_keys_same_position(
    before: Seq<(String, ViteManifestEntry)>,
    after: Seq<(String, ViteManifestEntry)>,
    key: Seq<char>,
    from: int,
)
    requires
        0 <= from,
        before.len() == after.len(),
        forall|j: int| 0 <= j < before.len() ==> before[j].0@ == after[j].0@,
    ensures
        first_position(after, key, from) == first_position(before, key, from),
    decreases before.len() - from,
{
    if from < before.len() {
        same_keys_same_position(before, after, key, from + 1);
    }
}

/// Whether `name` is one of `files`.
pub open spec fn listed_in(files: Seq<String>, name: Seq<char>) -> bool {
    exists|i: int| 0 <= i < files.len() && (#[trigger] files[i])@ == name
}

/// Whether `name` is one of `files`.
pub fn is_listed(files: &Vec<String>, name: &String) -> (listed: bool)
    ensures
        listed == listed_in(files@, name@),
{
    let mut i: usize = 0;
    while i < files.len()
        invariant
            i <= files@.len(),
            forall|j: int| 0 <= j < i ==> (#[trigger] files@[j])@ != name@,
        decreases files@.len() - i,
    {
        if files[i] == *name {
            return true;
        }
        i += 1;
    }
    false
}

/// The directory in which the bundler keeps its own files.
pub open spec fn bundler_directory() -> Seq<char> {
    seq!['.', 'v', 'i', 't', 'e', '/']
}

/// Whether a file of the build output is the bundler's own: it lies in
/// the directory `.vite`. Such a file is not served.
pub fn is_bundler_file(path: &str) -> (own: bool)
    ensures
        own == bundler_directory().is_prefix_of(path@),
{
    proof {
        reveal_strlit(".vite/");
    }
    let directory = to_chars(".vite/");
    let chars = to_chars(path);
    assert(directory@ =~= bundler_directory());
    if chars.len() < directory.len() {
        return false;
    }
    let mut i: usize = 0;
    while i < directory.len()
        invariant
            i <= directory@.len() <= chars@.len(),
            directory@ == bundler_directory(),
            chars@ == path@,
            forall|j: int| 0 <= j < i ==> directory@[j] == chars@[j],
        decreases directory@.len() - i,
    {
        if directory[i] != chars[i] {
            assert(directory@[i as int] != chars@.subrange(0, directory@.len() as int)[i as int]);
            return false;
        }
        i += 1;
    }
    assert(directory@ =~= chars@.subrange(0, directory@.len() as int));
    true
}

impl ViteManifest {
    /// Whether `key` is a second name for a file of the build output: the
    /// manifest has an entry for it, its file is one of `files`, and `key`
    /// itself is none of them.
    pub open spec fn is_alias(&self, key: Seq<char>, files: Seq<String>) -> bool {
        self@.dom().contains(key) && !listed_in(files, key) && listed_in(files, self@[key].file@)
    }

    /// The file of the build output for which `key` is a second name, if
    /// it is one.
    pub fn alias_target(&self, key: &str, files: &Vec<String>) -> (target: Option<String>)
        ensures
            match target {
                Some(file) => self.is_alias(key@, files@) && file@ == self@[key@].file@,
                None => !self.is_alias(key@, files@),
            },
    {
        let owned = key.to_owned();
        match self.get(key) {
            None => None,
            Some(entry) => {
                if !is_listed(files, &owned) && is_listed(files, &entry.file) {
                    Some(entry.file.clone())
                } else {
                    None
                }
            },
        }
    }
}

} // verus!
