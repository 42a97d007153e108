//! Storage contracts for wallet data and swap records, with in-memory
//! reference implementations.
//!
//! Two separate concerns: [`WalletStorage`] persists the mnemonic and the key
//! index; [`SwapStorage`] persists swap records keyed by swap identifier.
//! Both contracts demand overwrite semantics and no partial writes: a read
//! after a successful write returns exactly the value written, and a failed
//! write leaves the model unchanged. A backend reports its own failures as
//! [`Error::Storage`], so callers can tell backend trouble from the engine's
//! own errors. Any backend may implement them; the in-memory ones here are
//! verified against them.

use vstd::prelude::*;

use crate::client::ExtendedSwapStorageData;
use crate::error::Error;

verus! {

/// Typed storage for wallet data (mnemonic and key index).
pub trait WalletStorage: Sized {
    /// Abstract well-formedness of the backend's state.
    spec fn wf(&self) -> bool;

    /// The stored mnemonic, if any.
    spec fn spec_mnemonic(&self) -> Option<Seq<char>>;

    /// The stored key derivation index (0 when never set).
    spec fn spec_key_index(&self) -> u32;

    /// Get the mnemonic phrase from storage; `None` when none is stored.
    fn get_mnemonic(&self) -> (r: Result<Option<String>, Error>)
        requires
            self.wf(),
        ensures
            r matches Ok(m) ==> (match m {
                Option::Some(s) => self.spec_mnemonic() == Some(s@),
                Option::None => self.spec_mnemonic() is None,
            }),
            r matches Err(e) ==> e is Storage,
    ;

    /// Store the mnemonic phrase, overwriting any existing one.
    fn set_mnemonic(&mut self, mnemonic: &str) -> (r: Result<(), Error>)
        requires
            old(self).wf(),
        ensures
            final(self).wf(),
            r is Ok ==> final(self).spec_mnemonic() == Some(mnemonic@) && final(self).spec_key_index() == old(self).spec_key_index(),
            r is Err ==> final(self).spec_mnemonic() == old(self).spec_mnemonic() && final(self).spec_key_index() == old(self).spec_key_index(),
            r matches Err(e) ==> e is Storage,
    ;

    /// Get the current key derivation index (0 when never set).
    fn get_key_index(&self) -> (r: Result<u32, Error>)
        requires
            self.wf(),
        ensures
            r matches Ok(i) ==> i == self.spec_key_index(),
            r matches Err(e) ==> e is Storage,
    ;

    /// Set the key derivation index.
    fn set_key_index(&mut self, index: u32) -> (r: Result<(), Error>)
        requires
            old(self).wf(),
        ensures
            final(self).wf(),
            r is Ok ==> final(self).spec_key_index() == index && final(self).spec_mnemonic()
                == old(self).spec_mnemonic(),
            r is Err ==> final(self).spec_mnemonic() == old(self).spec_mnemonic() && final(self).spec_key_index() == old(self).spec_key_index(),
            r matches Err(e) ==> e is Storage,
    ;
}

/// Convenience operations on top of [`WalletStorage`], implemented for every
/// backend.
pub trait WalletStorageExt: WalletStorage {
    /// Read the current key index and advance the stored counter by one,
    /// returning the index to use.
    ///
    /// The read and the write are not atomic: two concurrent creations
    /// through the same backend must be excluded by the caller, or both can
    /// receive the same index and hence the same secrets.
    fn increment_key_index(&mut self) -> (r: Result<u32, Error>)
        requires
            old(self).wf(),
            old(self).spec_key_index() < u32::MAX,
        ensures
            final(self).wf(),
            r matches Ok(i) ==> i == old(self).spec_key_index() && final(self).spec_key_index()
                == old(self).spec_key_index() + 1 && final(self).spec_mnemonic() == old(
                self,
            ).spec_mnemonic(),
            r is Err ==> final(self).spec_mnemonic() == old(self).spec_mnemonic() && final(self).spec_key_index() == old(self).spec_key_index(),
            r matches Err(e) ==> e is Storage,
    ;
}

impl<T: WalletStorage> WalletStorageExt for T {
    fn increment_key_index(&mut self) -> (r: Result<u32, Error>) {
        let current = match self.get_key_index() {
            Ok(i) => i,
            Err(e) => {
                return Err(e);
            },
        };
        match self.set_key_index(current + 1) {
            Ok(_) => Ok(current),
            Err(e) => Err(e),
        }
    }
}

/// Typed storage for swap records, keyed by swap identifier.
pub trait SwapStorage: Sized {
    /// Abstract well-formedness of the backend's state.
    spec fn wf(&self) -> bool;

    /// The stored records as a map from swap identifier to record.
    spec fn spec_swaps(&self) -> Map<Seq<char>, ExtendedSwapStorageData>;

    /// Get the record stored under `swap_id`; `None` when there is none.
    fn get<'a>(&'a self, swap_id: &String) -> (r: Result<
        Option<&'a ExtendedSwapStorageData>,
        Error,
    >)
        requires
            self.wf(),
        ensures
            r matches Ok(m) ==> (match m {
                Option::Some(d) => self.spec_swaps().contains_key(swap_id@) && *d
                    == self.spec_swaps()[swap_id@],
                Option::None => !self.spec_swaps().contains_key(swap_id@),
            }),
            r matches Err(e) ==> e is Storage,
    ;

    /// Store a record under `swap_id`, overwriting any existing one.
    fn store(&mut self, swap_id: &String, data: ExtendedSwapStorageData) -> (r: Result<(), Error>)
        requires
            old(self).wf(),
        ensures
            final(self).wf(),
            r is Ok ==> final(self).spec_swaps() == old(self).spec_swaps().insert(swap_id@, data),
            r is Err ==> final(self).spec_swaps() == old(self).spec_swaps(),
            r matches Err(e) ==> e is Storage,
    ;

    /// Delete the record stored under `swap_id`; does nothing if there is
    /// none.
    fn delete(&mut self, swap_id: &String) -> (r: Result<(), Error>)
        requires
            old(self).wf(),
        ensures
            final(self).wf(),
            r is Ok ==> final(self).spec_swaps() == old(self).spec_swaps().remove(swap_id@),
            r is Err ==> final(self).spec_swaps() == old(self).spec_swaps(),
            r matches Err(e) ==> e is Storage,
    ;

    /// List all stored swap identifiers, each exactly once.
    fn list(&self) -> (r: Result<Vec<String>, Error>)
        requires
            self.wf(),
        ensures
            r matches Ok(ids) ==> ids@.map_values(|s: String| s@).to_set()
                == self.spec_swaps().dom() && ids@.map_values(|s: String| s@).no_duplicates(),
            r matches Err(e) ==> e is Storage,
    ;

    /// Get all stored records.
    fn get_all<'a>(&'a self) -> (r: Result<Vec<&'a ExtendedSwapStorageData>, Error>)
        requires
            self.wf(),
        ensures
            r matches Ok(ds) ==> ds@.len() == self.spec_swaps().dom().len() && (forall|i: int|
                0 <= i < ds@.len() ==> stored_value(self.spec_swaps(), *(#[trigger] ds@[i]))),
            r matches Err(e) ==> e is Storage,
    ;
}

/// Simple in-memory wallet storage.
pub struct MemoryWalletStorage {
    mnemonic: Option<String>,
    key_index: u32,
}

impl MemoryWalletStorage {
    /// Create an empty in-memory wallet storage.
    pub fn new() -> (r: MemoryWalletStorage)
        ensures
            r.wf(),
            r.spec_mnemonic() is None,
            r.spec_key_index() == 0,
    {
        MemoryWalletStorage { mnemonic: None, key_index: 0 }
    }
}

impl WalletStorage for MemoryWalletStorage {
    closed spec fn wf(&self) -> bool {
        true
    }

    closed spec fn spec_mnemonic(&self) -> Option<Seq<char>> {
        match self.mnemonic {
            Option::Some(s) => Some(s@),
            Option::None => None,
        }
    }

    closed spec fn spec_key_index(&self) -> u32 {
        self.key_index
    }

    fn get_mnemonic(&self) -> (r: Result<Option<String>, Error>) {
        match &self.mnemonic {
            Option::Some(s) => Ok(Some(s.clone())),
            Option::None => Ok(None),
        }
    }

    fn set_mnemonic(&mut self, mnemonic: &str) -> (r: Result<(), Error>) {
        self.mnemonic = Some(mnemonic.to_owned());
        Ok(())
    }

    fn get_key_index(&self) -> (r: Result<u32, Error>) {
        Ok(self.key_index)
    }

    fn set_key_index(&mut self, index: u32) -> (r: Result<(), Error>) {
        self.key_index = index;
        Ok(())
    }
}

/// Whether `d` is one of the values a record map holds.
pub open spec fn stored_value(
    m: Map<Seq<char>, ExtendedSwapStorageData>,
    d: ExtendedSwapStorageData,
) -> bool {
    exists|k: Seq<char>| #[trigger] m.contains_key(k) && m[k] == d
}

/// Whether an association list has pairwise-distinct keys.
pub open spec fn swap_entries_nodup(s: Seq<(String, ExtendedSwapStorageData)>) -> bool {
    forall|i: int, j: int| 0 <= i < j < s.len() ==> s[i].0@ != s[j].0@
}

/// The map an association list denotes; a later entry wins.
pub open spec fn assoc_map(s: Seq<(String, ExtendedSwapStorageData)>) -> Map<
    Seq<char>,
    ExtendedSwapStorageData,
>
    decreases s.len(),
{
    if s.len() == 0 {
        Map::empty()
    } else {
        assoc_map(s.drop_last()).insert(s.last().0@, s.last().1)
    }
}

proof fn lemma_assoc_contains(s: Seq<(String, ExtendedSwapStorageData)>, k: Seq<char>)
    ensures
        assoc_map(s).contains_key(k) <==> exists|i: int| 0 <= i < s.len() && s[i].0@ == k,
    decreases s.len(),
{
    if s.len() > 0 {
        lemma_assoc_contains(s.drop_last(), k);
        if s.last().0@ == k {
            assert(s[s.len() - 1].0@ == k);
        } else {
            if assoc_map(s).contains_key(k) {
                let i = choose|i: int| 0 <= i < s.drop_last().len() && s.drop_last()[i].0@ == k;
                assert(s[i].0@ == k);
            }
            if exists|i: int| 0 <= i < s.len() && s[i].0@ == k {
                let i = choose|i: int| 0 <= i < s.len() && s[i].0@ == k;
                assert(i < s.len() - 1);
                assert(s.drop_last()[i].0@ == k);
            }
        }
    }
}

proof fn lemma_assoc_get(s: Seq<(String, ExtendedSwapStorageData)>, i: int)
    requires
        swap_entries_nodup(s),
        0 <= i < s.len(),
    ensures
        assoc_map(s).contains_key(s[i].0@),
        assoc_map(s)[s[i].0@] == s[i].1,
    decreases s.len(),
{
    if i < s.len() - 1 {
        assert(swap_entries_nodup(s.drop_last()));
        assert(s.drop_last()[i] == s[i]);
        lemma_assoc_get(s.drop_last(), i);
        assert(s[i].0@ != s.last().0@);
    }
}

proof fn lemma_assoc_dom_len(s: Seq<(String, ExtendedSwapStorageData)>)
    requires
        swap_entries_nodup(s),
    ensures
        assoc_map(s).dom().finite(),
        assoc_map(s).dom().len() == s.len(),
    decreases s.len(),
{
    if s.len() > 0 {
        assert(swap_entries_nodup(s.drop_last()));
        lemma_assoc_dom_len(s.drop_last());
        lemma_assoc_contains(s.drop_last(), s.last().0@);
        assert(forall|i: int|
            0 <= i < s.drop_last().len() ==> s.drop_last()[i] == s[i] && s[i].0@ != s.last().0@);
        assert(!assoc_map(s.drop_last()).contains_key(s.last().0@));
    }
}

proof fn lemma_assoc_remove(s: Seq<(String, ExtendedSwapStorageData)>, i: int)
    requires
        swap_entries_nodup(s),
        0 <= i < s.len(),
    ensures
        swap_entries_nodup(s.remove(i)),
        assoc_map(s.remove(i)) == assoc_map(s).remove(s[i].0@),
    decreases s.len(),
{
    assert forall|x: int, y: int| 0 <= x < y < s.remove(i).len() implies s.remove(i)[x].0@ != s.remove(
        i,
    )[y].0@ by {
        assert(s.remove(i)[x] == (if x < i {
            s[x]
        } else {
            s[x + 1]
        }));
        assert(s.remove(i)[y] == (if y < i {
            s[y]
        } else {
            s[y + 1]
        }));
    }
    if i == s.len() - 1 {
        assert(s.remove(i) =~= s.drop_last());
        lemma_assoc_contains(s.drop_last(), s[i].0@);
        assert(forall|j: int|
            0 <= j < s.drop_last().len() ==> s.drop_last()[j] == s[j] && s[j].0@ != s[i].0@);
        assert(!assoc_map(s.drop_last()).contains_key(s[i].0@));
        assert(assoc_map(s).remove(s[i].0@) =~= assoc_map(s.drop_last()));
    } else {
        assert(swap_entries_nodup(s.drop_last()));
        assert(s.drop_last()[i] == s[i]);
        lemma_assoc_remove(s.drop_last(), i);
        assert(s.remove(i).drop_last() =~= s.drop_last().remove(i));
        assert(s.remove(i).last() == s.last());
        assert(s.remove(i).len() > 0);
        assert(assoc_map(s.remove(i)) == assoc_map(s.drop_last().remove(i)).insert(
            s.last().0@,
            s.last().1,
        ));
        assert(s[i].0@ != s.last().0@);
        assert(assoc_map(s.drop_last()).remove(s[i].0@).insert(s.last().0@, s.last().1)
            =~= assoc_map(s.drop_last()).insert(s.last().0@, s.last().1).remove(s[i].0@));
    }
}

/// Simple in-memory swap storage: an association list with distinct keys.
pub struct MemorySwapStorage {
    entries: Vec<(String, ExtendedSwapStorageData)>,
}

impl MemorySwapStorage {
    /// Create an empty in-memory swap storage.
    pub fn new() -> (r: MemorySwapStorage)
        ensures
            r.wf(),
            r.spec_swaps() == Map::<Seq<char>, ExtendedSwapStorageData>::empty(),
    {
        MemorySwapStorage { entries: Vec::new() }
    }

    /// The position of the entry stored under `swap_id`, if any.
    fn find_index(&self, swap_id: &String) -> (r: Option<usize>)
        ensures
            r matches Some(i) ==> i < self.entries@.len() && self.entries@[i as int].0@
                == swap_id@,
            r is None ==> forall|j: int|
                0 <= j < self.entries@.len() ==> (#[trigger] self.entries@[j]).0@ != swap_id@,
    {
        let n = self.entries.len();
        let mut i: usize = 0;
        while i < n
            invariant
                i <= n,
                n == self.entries@.len(),
                forall|j: int| 0 <= j < i ==> (#[trigger] self.entries@[j]).0@ != swap_id@,
            decreases n - i,
        {
            if self.entries[i].0 == *swap_id {
                return Some(i);
            }
            i = i + 1;
        }
        None
    }
}

impl SwapStorage for MemorySwapStorage {
    closed spec fn wf(&self) -> bool {
        swap_entries_nodup(self.entries@)
    }

    closed spec fn spec_swaps(&self) -> Map<Seq<char>, ExtendedSwapStorageData> {
        assoc_map(self.entries@)
    }

    fn get<'a>(&'a self, swap_id: &String) -> (r: Result<
        Option<&'a ExtendedSwapStorageData>,
        Error,
    >) {
        match self.find_index(swap_id) {
            Option::Some(i) => {
                proof {
                    lemma_assoc_get(self.entries@, i as int);
                }
                Ok(Some(&self.entries[i].1))
            },
            Option::None => {
                proof {
                    lemma_assoc_contains(self.entries@, swap_id@);
                }
                Ok(None)
            },
        }
    }

    fn store(&mut self, swap_id: &String, data: ExtendedSwapStorageData) -> (r: Result<(), Error>) {
        let ghost s0 = self.entries@;
        match self.find_index(swap_id) {
            Option::Some(i) => {
                proof {
                    lemma_assoc_remove(s0, i as int);
                }
                self.entries.remove(i);
                proof {
                    assert forall|j: int|
                        0 <= j < self.entries@.len() implies (#[trigger] self.entries@[j]).0@
                        != swap_id@ by {
                        assert(self.entries@[j] == (if j < i {
                            s0[j]
                        } else {
                            s0[j + 1]
                        }));
                    }
                }
            },
            Option::None => {},
        }
        let ghost s1 = self.entries@;
        proof {
            lemma_assoc_contains(s1, swap_id@);
            assert(!assoc_map(s1).contains_key(swap_id@));
        }
        self.entries.push((swap_id.clone(), data));
        proof {
            assert(self.entries@.drop_last() =~= s1);
            assert(self.entries@.last().0@ == swap_id@);
            assert forall|x: int, y: int|
                0 <= x < y < self.entries@.len() implies self.entries@[x].0@
                != self.entries@[y].0@ by {
                if y < self.entries@.len() - 1 {
                    assert(self.entries@[x] == s1[x] && self.entries@[y] == s1[y]);
                } else {
                    assert(self.entries@[x] == s1[x]);
                    lemma_assoc_contains(s1, s1[x].0@);
                }
            }
            assert(assoc_map(self.entries@) == assoc_map(s1).insert(swap_id@, data));
            assert(assoc_map(s1).insert(swap_id@, data) =~= assoc_map(s0).insert(swap_id@, data));
        }
        Ok(())
    }

    fn delete(&mut self, swap_id: &String) -> (r: Result<(), Error>) {
        let ghost s0 = self.entries@;
        match self.find_index(swap_id) {
            Option::Some(i) => {
                proof {
                    lemma_assoc_remove(s0, i as int);
                }
                self.entries.remove(i);
                Ok(())
            },
            Option::None => {
                proof {
                    lemma_assoc_contains(s0, swap_id@);
                    assert(assoc_map(s0).remove(swap_id@) =~= assoc_map(s0));
                }
                Ok(())
            },
        }
    }

    fn list(&self) -> (r: Result<Vec<String>, Error>) {
        let n = self.entries.len();
        let mut ids: Vec<String> = Vec::new();
        let mut i: usize = 0;
        while i < n
            invariant
                i <= n,
                n == self.entries@.len(),
                ids@.len() == i,
                forall|j: int| 0 <= j < i ==> (#[trigger] ids@[j])@ == self.entries@[j].0@,
            decreases n - i,
        {
            ids.push(self.entries[i].0.clone());
            i = i + 1;
        }
        proof {
            let kv = ids@.map_values(|s: String| s@);
            assert(kv.len() == self.entries@.len());
            assert(forall|j: int| 0 <= j < kv.len() ==> kv[j] == self.entries@[j].0@);
            assert forall|k: Seq<char>| #[trigger]
                kv.to_set().contains(k) implies self.spec_swaps().dom().contains(k) by {
                let j = choose|j: int| 0 <= j < kv.len() && kv[j] == k;
                lemma_assoc_get(self.entries@, j);
            }
            assert forall|k: Seq<char>| #[trigger]
                self.spec_swaps().dom().contains(k) implies kv.to_set().contains(k) by {
                lemma_assoc_contains(self.entries@, k);
                let j = choose|j: int| 0 <= j < self.entries@.len() && self.entries@[j].0@ == k;
                assert(kv[j] == k);
            }
            assert(kv.to_set() =~= self.spec_swaps().dom());
        }
        Ok(ids)
    }

    fn get_all<'a>(&'a self) -> (r: Result<Vec<&'a ExtendedSwapStorageData>, Error>) {
        let n = self.entries.len();
        let mut ds: Vec<&'a ExtendedSwapStorageData> = Vec::new();
        let mut i: usize = 0;
        while i < n
            invariant
                i <= n,
                n == self.entries@.len(),
                ds@.len() == i,
                forall|j: int| 0 <= j < i ==> *(#[trigger] ds@[j]) == self.entries@[j].1,
            decreases n - i,
        {
            ds.push(&self.entries[i].1);
            i = i + 1;
        }
        proof {
            lemma_assoc_dom_len(self.entries@);
            assert forall|j: int| 0 <= j < ds@.len() implies stored_value(
                self.spec_swaps(),
                *(#[trigger] ds@[j]),
            ) by {
                lemma_assoc_get(self.entries@, j);
                let k0 = self.entries@[j].0@;
                assert(self.spec_swaps().contains_key(k0) && self.spec_swaps()[k0] == *ds@[j]);
            }
        }
        Ok(ds)
    }
}

} // verus!
