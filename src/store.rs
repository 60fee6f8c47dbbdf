//! Client identifiers and an in-memory session store: one record per client,
//! the last write for a client replacing the one before.
use vstd::prelude::*;
use crate::error::ChannelError;
use crate::secret::copy_bytes;

verus! {

/// Canonical identity of a client: the base64 text of its public key bytes.
pub struct KeyStoreKey(pub String);

impl KeyStoreKey {
    pub fn new(id: String) -> (r: KeyStoreKey)
        ensures
            r.0@ == id@,
    {
        KeyStoreKey(id)
    }

    pub fn as_str(&self) -> (r: &str)
        ensures
            r@ == self.0@,
    {
        self.0.as_str()
    }
}

/// Session records by client identifier.
pub struct Sessions {
    entries: Vec<(String, Vec<u8>)>,
    contents: Ghost<Map<Seq<char>, Seq<u8>>>,
}

impl View for Sessions {
    type V = Map<Seq<char>, Seq<u8>>;

    closed spec fn view(&self) -> Map<Seq<char>, Seq<u8>> {
        self.contents@
    }
}

impl Sessions {
    /// Entries have distinct identifiers and hold exactly the contents.
    pub closed spec fn wf(&self) -> bool {
        &&& forall|i: int, j: int|
            0 <= i < j < self.entries@.len() ==> #[trigger] self.entries@[i].0@ != #[trigger] self.entries@[j].0@
        &&& forall|i: int|
            0 <= i < self.entries@.len() ==> self.contents@.contains_key(#[trigger] self.entries@[i].0@)
                && self.contents@[self.entries@[i].0@] == self.entries@[i].1@
        &&& forall|k: Seq<char>|
            #[trigger] self.contents@.contains_key(k) ==> exists|i: int|
                0 <= i < self.entries@.len() && #[trigger] self.entries@[i].0@ == k
    }

    /// An empty store.
    pub fn new() -> (r: Sessions)
        ensures
            r.wf(),
            r@ == Map::<Seq<char>, Seq<u8>>::empty(),
    {
        Sessions { entries: Vec::new(), contents: Ghost(Map::empty()) }
    }

    /// The number of clients with a record.
    pub fn len(&self) -> (r: usize)
        requires
            self.wf(),
        ensures
            r == self@.dom().len(),
    {
        proof {
            self.lemma_len();
        }
        self.entries.len()
    }

    proof fn lemma_len(&self)
        requires
            self.wf(),
        ensures
            self@.dom().len() == self.entries@.len(),
            self@.dom().finite(),
        decreases self.entries@.len(),
    {
        let keys = self.entries@.map_values(|e: (String, Vec<u8>)| e.0@);
        assert forall|i: int, j: int| 0 <= i < j < keys.len() implies keys[i] != keys[j] by {
            assert(self.entries@[i].0@ != self.entries@[j].0@);
        }
        keys.unique_seq_to_set();
        assert(keys.to_set() =~= self@.dom()) by {
            assert forall|k: Seq<char>| keys.to_set().contains(k) implies self@.dom().contains(k) by {
                let i = choose|i: int| 0 <= i < keys.len() && keys[i] == k;
                assert(self.contents@.contains_key(self.entries@[i].0@));
            }
            assert forall|k: Seq<char>| self@.dom().contains(k) implies keys.to_set().contains(k) by {
                assert(self.contents@.contains_key(k));
                let i = choose|i: int| 0 <= i < self.entries@.len() && #[trigger] self.entries@[i].0@ == k;
                assert(keys[i] == k);
            }
        }
    }

    fn find(&self, id: &String) -> (r: Option<usize>)
        requires
            self.wf(),
        ensures
            r matches Some(i) ==> i < self.entries@.len() && self.entries@[i as int].0@ == id@,
            r is None ==> !self@.contains_key(id@),
    {
        let mut i: usize = 0;
        while i < self.entries.len()
            invariant
                self.wf(),
                i <= self.entries@.len(),
                forall|j: int| 0 <= j < i ==> #[trigger] self.entries@[j].0@ != id@,
            decreases self.entries@.len() - i,
        {
            if self.entries[i].0 == *id {
                return Some(i);
            }
            i = i + 1;
        }
        None
    }

    /// Stores `record` for `id`, replacing any earlier record for it.
    pub fn set(&mut self, id: &KeyStoreKey, record: Vec<u8>)
        requires
            old(self).wf(),
        ensures
            final(self).wf(),
            final(self)@ == old(self)@.insert(id.0@, record@),
    {
        let ghost old_contents = self.contents@;
        let ghost new_contents = old_contents.insert(id.0@, record@);
        let key = id.0.clone();
        match self.find(&id.0) {
            Some(i) => {
                self.entries.set(i, (key, record));
                self.contents = Ghost(new_contents);
                assert forall|k: Seq<char>| #[trigger] new_contents.contains_key(k) implies exists|j: int|
                    0 <= j < self.entries@.len() && #[trigger] self.entries@[j].0@ == k by {
                    if k != id.0@ {
                        assert(old_contents.contains_key(k));
                        let j = choose|j: int| 0 <= j < self.entries@.len() && #[trigger] old(self).entries@[j].0@ == k;
                        assert(self.entries@[j].0@ == k);
                    } else {
                        assert(self.entries@[i as int].0@ == k);
                    }
                }
            },
            None => {
                self.entries.push((key, record));
                self.contents = Ghost(new_contents);
                let ghost n: int = self.entries@.len() - 1;
                assert forall|k: Seq<char>| #[trigger] new_contents.contains_key(k) implies exists|j: int|
                    0 <= j < self.entries@.len() && #[trigger] self.entries@[j].0@ == k by {
                    if k != id.0@ {
                        assert(old_contents.contains_key(k));
                        let j = choose|j: int| 0 <= j < old(self).entries@.len() && #[trigger] old(self).entries@[j].0@ == k;
                        assert(self.entries@[j].0@ == k);
                    } else {
                        assert(self.entries@[n].0@ == k);
                    }
                }
                assert forall|a: int, b: int| 0 <= a < b < self.entries@.len() implies #[trigger] self.entries@[a].0@
                    != #[trigger] self.entries@[b].0@ by {
                    if b == n {
                        assert(old_contents.contains_key(old(self).entries@[a].0@));
                    }
                }
            },
        }
    }

    /// The record stored for `id`; `NotFound` when there is none.
    pub fn get(&self, id: &KeyStoreKey) -> (r: Result<Vec<u8>, ChannelError>)
        requires
            self.wf(),
        ensures
            !self@.contains_key(id.0@) ==> r == Err::<Vec<u8>, ChannelError>(ChannelError::NotFound),
            self@.contains_key(id.0@) ==> (r matches Ok(v) && v@ == self@[id.0@]),
    {
        match self.find(&id.0) {
            Some(i) => Ok(copy_bytes(self.entries[i].1.as_slice())),
            None => Err(ChannelError::NotFound),
        }
    }
}

} // verus!
