use vstd::prelude::*;

use crate::device::Address;
use crate::distribution::{uuid_array, uuid_bytes};

verus! {

/// What a sender key is filed under: the sender's name, the sender's device
/// id and the 16 bytes of the distribution id.
pub type SenderKeyName = (Seq<char>, u8, Seq<u8>);

/// The name under which the key of `sender` for `distribution_id` is filed.
pub open spec fn sender_key_name(sender: (Seq<char>, u8), distribution_id: uuid::Uuid) -> SenderKeyName {
    (sender.0, sender.1, uuid_bytes(distribution_id))
}

struct SenderKeyEntry<R> {
    sender: Address,
    distribution_id: [u8; 16],
    record: R,
}

impl<R> SenderKeyEntry<R> {
    spec fn name(self) -> SenderKeyName {
        (self.sender.name@, self.sender.device_id@, self.distribution_id@)
    }
}

/// Equality of two 16-byte arrays, element by element.
fn same_bytes(a: &[u8; 16], b: &[u8; 16]) -> (r: bool)
    ensures
        r == (a@ == b@),
{
    let mut i: usize = 0;
    while i < 16
        invariant
            i <= 16,
            a@.len() == 16,
            b@.len() == 16,
            forall|j: int| 0 <= j < i ==> a@[j] == b@[j],
        decreases 16 - i,
    {
        if a[i] != b[i] {
            assert(a@[i as int] != b@[i as int]);
            return false;
        }
        i = i + 1;
    }
    assert(a@ =~= b@);
    true
}

/// A store of sender-key records, one per (sender, distribution id), that
/// can also forget a record.
///
/// Its contents are a finite map from `SenderKeyName` to records; no name is
/// filed twice.
pub struct ArcSenderKeyStore<R> {
    entries: Vec<SenderKeyEntry<R>>,
}

impl<R> ArcSenderKeyStore<R> {
    #[verifier::type_invariant]
    spec fn names_unique(self) -> bool {
        forall|i: int, j: int|
            0 <= i < self.entries@.len() && 0 <= j < self.entries@.len() && i != j
                ==> #[trigger] self.entries@[i].name() != #[trigger] self.entries@[j].name()
    }

    spec fn has_name_at(self, name: SenderKeyName, i: int) -> bool {
        0 <= i < self.entries@.len() && self.entries@[i].name() == name
    }

    spec fn index_of(self, name: SenderKeyName) -> int {
        choose|i: int| self.has_name_at(name, i)
    }

    /// The records held, by the name they are filed under.
    pub closed spec fn contents(self) -> Map<SenderKeyName, R> {
        Map::new(
            |name: SenderKeyName| exists|i: int| self.has_name_at(name, i),
            |name: SenderKeyName| self.entries@[self.index_of(name)].record,
        )
    }

    proof fn lemma_entry_in_contents(self, i: int)
        requires
            self.names_unique(),
            0 <= i < self.entries@.len(),
        ensures
            self.contents().contains_key(self.entries@[i].name()),
            self.contents()[self.entries@[i].name()] == self.entries@[i].record,
    {
        let name = self.entries@[i].name();
        assert(self.has_name_at(name, i));
        let k = self.index_of(name);
        assert(self.has_name_at(name, k));
        if k != i {
            assert(self.entries@[k].name() != self.entries@[i].name());
        }
    }

    /// An empty store.
    pub fn new() -> (s: Self)
        ensures
            s@ == Map::<SenderKeyName, R>::empty(),
    {
        let s = ArcSenderKeyStore { entries: Vec::new() };
        assert(s.contents() =~= Map::<SenderKeyName, R>::empty());
        s
    }

    /// Position of the record filed under `(sender, distribution_id)`, if any.
    fn find(&self, sender: &Address, distribution_id: &[u8; 16]) -> (r: Option<usize>)
        ensures
            r matches Some(i) ==> self.has_name_at((sender@.0, sender@.1, distribution_id@), i as int),
            r is None ==> forall|i: int|
                !#[trigger] self.has_name_at((sender@.0, sender@.1, distribution_id@), i),
    {
        let ghost name = (sender@.0, sender@.1, distribution_id@);
        let mut i: usize = 0;
        while i < self.entries.len()
            invariant
                i <= self.entries@.len(),
                name == (sender@.0, sender@.1, distribution_id@),
                forall|j: int| 0 <= j < i ==> !#[trigger] self.has_name_at(name, j),
            decreases self.entries@.len() - i,
        {
            let e = &self.entries[i];
            if e.sender.name == sender.name && e.sender.device_id.value()
                == sender.device_id.value() && same_bytes(&e.distribution_id, distribution_id) {
                return Some(i);
            }
            i = i + 1;
        }
        None
    }

    /// Files `record` under `(sender, distribution_id)`, replacing any record
    /// already filed there; no other record changes.
    pub fn store_sender_key(&mut self, sender: Address, distribution_id: uuid::Uuid, record: R)
        ensures
            final(self)@ == old(self)@.insert(sender_key_name(sender@, distribution_id), record),
    {
        proof {
            use_type_invariant(&*self);
        }
        let ghost old_store = *self;
        let ghost name = sender_key_name(sender@, distribution_id);
        let dist = uuid_array(&distribution_id);
        let found = self.find(&sender, &dist);
        let mut entries: Vec<SenderKeyEntry<R>> = Vec::new();
        std::mem::swap(&mut entries, &mut self.entries);
        let entry = SenderKeyEntry { sender, distribution_id: dist, record };
        assert(entry.name() == name);
        match found {
            Some(i) => {
                entries.set(i, entry);
            },
            None => {
                entries.push(entry);
            },
        }
        let ghost new_entries = entries@;
        assert forall|a: int, b: int|
            0 <= a < new_entries.len() && 0 <= b < new_entries.len() && a != b
                implies #[trigger] new_entries[a].name() != #[trigger] new_entries[b].name() by {
            match found {
                Some(i) => {
                    let ii = i as int;
                    assert(old_store.has_name_at(name, ii));
                    if a != ii && b != ii {
                        assert(old_store.entries@[a].name() != old_store.entries@[b].name());
                    } else if a == ii {
                        assert(old_store.entries@[b].name() != old_store.entries@[ii].name());
                    } else {
                        assert(old_store.entries@[a].name() != old_store.entries@[ii].name());
                    }
                },
                None => {
                    let n = old_store.entries@.len() as int;
                    if a < n && b < n {
                        assert(old_store.entries@[a].name() != old_store.entries@[b].name());
                    } else if a == n {
                        assert(!old_store.has_name_at(name, b));
                    } else {
                        assert(!old_store.has_name_at(name, a));
                    }
                },
            }
        }
        self.entries = entries;
        proof {
            let new_store = *self;
            let target = old_store@.insert(name, record);
            assert forall|k: SenderKeyName| #[trigger] new_store@.contains_key(k) <==> target.contains_key(k) by {
                if new_store@.contains_key(k) {
                    let j = choose|j: int| new_store.has_name_at(k, j);
                    if k != name {
                        assert(old_store.has_name_at(k, j));
                    }
                }
                if k != name && old_store@.contains_key(k) {
                    let j = choose|j: int| old_store.has_name_at(k, j);
                    assert(new_store.has_name_at(k, j));
                }
                if k == name {
                    match found {
                        Some(i) => assert(new_store.has_name_at(k, i as int)),
                        None => assert(new_store.has_name_at(k, old_store.entries@.len() as int)),
                    }
                }
            }
            assert forall|k: SenderKeyName| #[trigger] new_store@.contains_key(k) implies new_store@[k] == target[k] by {
                let j = choose|j: int| new_store.has_name_at(k, j);
                new_store.lemma_entry_in_contents(j);
                if k != name {
                    assert(old_store.has_name_at(k, j));
                    old_store.lemma_entry_in_contents(j);
                }
            }
            assert(new_store@ =~= target);
        }
    }

    /// The record filed under `(sender, distribution_id)`, if there is one.
    pub fn load_sender_key(&self, sender: &Address, distribution_id: uuid::Uuid) -> (r: Option<&R>)
        ensures
            r matches Some(rec) ==> self@.contains_key(sender_key_name(sender@, distribution_id))
                && *rec == self@[sender_key_name(sender@, distribution_id)],
            r is None ==> !self@.contains_key(sender_key_name(sender@, distribution_id)),
    {
        proof {
            use_type_invariant(self);
        }
        let dist = uuid_array(&distribution_id);
        match self.find(sender, &dist) {
            Some(i) => {
                proof {
                    self.lemma_entry_in_contents(i as int);
                }
                Some(&self.entries[i].record)
            },
            None => None,
        }
    }

    /// Forgets the record filed under `(sender, distribution_id)`.
    ///
    /// Returns `true` when such a record existed and was removed, `false`
    /// when there was none; no other record changes.
    pub fn delete(&mut self, sender: &Address, distribution_id: uuid::Uuid) -> (removed: bool)
        ensures
            removed == old(self)@.contains_key(sender_key_name(sender@, distribution_id)),
            final(self)@ == old(self)@.remove(sender_key_name(sender@, distribution_id)),
    {
        proof {
            use_type_invariant(&*self);
        }
        let ghost old_store = *self;
        let ghost name = sender_key_name(sender@, distribution_id);
        let dist = uuid_array(&distribution_id);
        match self.find(sender, &dist) {
            None => {
                assert(old_store@ =~= old_store@.remove(name));
                false
            },
            Some(i) => {
                proof {
                    old_store.lemma_entry_in_contents(i as int);
                }
                let mut entries: Vec<SenderKeyEntry<R>> = Vec::new();
                std::mem::swap(&mut entries, &mut self.entries);
                let _ = entries.remove(i);
                let ghost new_entries = entries@;
                assert forall|a: int, b: int|
                    0 <= a < new_entries.len() && 0 <= b < new_entries.len() && a != b
                        implies #[trigger] new_entries[a].name() != #[trigger] new_entries[b].name() by {
                    let oa = if a < i { a } else { a + 1 };
                    let ob = if b < i { b } else { b + 1 };
                    assert(new_entries[a] == old_store.entries@[oa]);
                    assert(new_entries[b] == old_store.entries@[ob]);
                    assert(old_store.entries@[oa].name() != old_store.entries@[ob].name());
                }
                self.entries = entries;
                proof {
                    let new_store = *self;
                    let target = old_store@.remove(name);
                    assert forall|k: SenderKeyName| #[trigger] new_store@.contains_key(k) <==> target.contains_key(k) by {
                        if new_store@.contains_key(k) {
                            let j = choose|j: int| new_store.has_name_at(k, j);
                            let oj = if j < i { j } else { j + 1 };
                            assert(new_store.entries@[j] == old_store.entries@[oj]);
                            assert(old_store.has_name_at(k, oj));
                            assert(oj != i);
                            assert(k != name);
                        }
                        if target.contains_key(k) {
                            let oj = choose|j: int| old_store.has_name_at(k, j);
                            assert(oj != i);
                            let j = if oj < i { oj } else { oj - 1 };
                            assert(new_store.entries@[j] == old_store.entries@[oj]);
                            assert(new_store.has_name_at(k, j));
                        }
                    }
                    assert forall|k: SenderKeyName| #[trigger] new_store@.contains_key(k) implies new_store@[k] == target[k] by {
                        let j = choose|j: int| new_store.has_name_at(k, j);
                        let oj = if j < i { j } else { j + 1 };
                        assert(new_store.entries@[j] == old_store.entries@[oj]);
                        new_store.lemma_entry_in_contents(j);
                        old_store.lemma_entry_in_contents(oj);
                    }
                    assert(new_store@ =~= target);
                }
                true
            },
        }
    }
}

impl<R> Default for ArcSenderKeyStore<R> {
    /// An empty store.
    fn default() -> (s: Self)
        ensures
            s@ == Map::<SenderKeyName, R>::empty(),
    {
        Self::new()
    }
}

impl<R> View for ArcSenderKeyStore<R> {
    type V = Map<SenderKeyName, R>;

    open spec fn view(&self) -> Map<SenderKeyName, R> {
        self.contents()
    }
}

} // verus!
