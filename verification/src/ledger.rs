//! The ledger of links: which identifiers are bound, under which provider.

use vstd::prelude::*;
use crate::address::Address;
use crate::bytes::same_bytes;
use crate::error::CustomError;
use crate::state::link::Link;

verus! {

/// What a link is filed under: the address of the provider and the
/// identifier. Neither the time of issue nor the owner is part of it.
pub type LinkKey = (Address, Seq<u8>);

/// A link as the ledger files it.
struct LinkEntry {
    provider: Address,
    identifier: Vec<u8>,
    link: Link,
}

/// What an entry is filed under.
spec fn entry_key(e: LinkEntry) -> LinkKey {
    (e.provider, e.identifier@)
}

/// No two entries are filed under the same key.
spec fn distinct_keys(s: Seq<LinkEntry>) -> bool {
    forall|i: int, j: int|
        0 <= i < j < s.len() ==> #[trigger] entry_key(s[i]) != #[trigger] entry_key(s[j])
}

/// Whether an entry is filed under the key.
spec fn filed(s: Seq<LinkEntry>, k: LinkKey) -> bool {
    exists|i: int| 0 <= i < s.len() && #[trigger] entry_key(s[i]) == k
}

/// The place of an entry that is filed under the key.
spec fn place(s: Seq<LinkEntry>, k: LinkKey) -> int {
    choose|i: int| 0 <= i < s.len() && #[trigger] entry_key(s[i]) == k
}

/// The links that the entries file, each under its key.
spec fn links_of(s: Seq<LinkEntry>) -> Map<LinkKey, Link> {
    Map::new(|k: LinkKey| filed(s, k), |k: LinkKey| s[place(s, k)].link)
}

/// Where keys are distinct, the entry at a place is the one filed under
/// its key.
proof fn lemma_place(s: Seq<LinkEntry>, i: int)
    requires
        distinct_keys(s),
        0 <= i < s.len(),
    ensures
        filed(s, entry_key(s[i])),
        place(s, entry_key(s[i])) == i,
        links_of(s).contains_key(entry_key(s[i])),
        links_of(s)[entry_key(s[i])] == s[i].link,
{
    let k = entry_key(s[i]);
    let j = place(s, k);
    assert(0 <= j < s.len() && entry_key(s[j]) == k);
    if j < i {
        assert(entry_key(s[j]) != entry_key(s[i]));
    }
    if i < j {
        assert(entry_key(s[i]) != entry_key(s[j]));
    }
}

/// How many entries are filed under the key.
spec fn count_filed(s: Seq<LinkEntry>, k: LinkKey) -> nat
    decreases s.len(),
{
    if s.len() == 0 {
        0
    } else {
        count_filed(s.drop_last(), k) + if entry_key(s.last()) == k {
            1nat
        } else {
            0nat
        }
    }
}

/// Where keys are distinct, at most one entry is filed under a key, and one
/// is exactly if the key is filed.
proof fn lemma_count_filed(s: Seq<LinkEntry>, k: LinkKey)
    requires
        distinct_keys(s),
    ensures
        count_filed(s, k) <= 1,
        count_filed(s, k) == 1 <==> filed(s, k),
    decreases s.len(),
{
    if s.len() > 0 {
        let front = s.drop_last();
        assert forall|i: int, j: int| 0 <= i < j < front.len() implies entry_key(front[i])
            != entry_key(front[j]) by {
            assert(entry_key(s[i]) != entry_key(s[j]));
        }
        lemma_count_filed(front, k);
        if filed(front, k) {
            let i = place(front, k);
            assert(entry_key(s[i]) == k);
            assert(entry_key(s[i]) != entry_key(s[s.len() - 1]));
        }
        if filed(s, k) {
            let i = place(s, k);
            if i < front.len() {
                assert(entry_key(front[i]) == k);
            }
        }
        if entry_key(s.last()) == k {
            assert(entry_key(s[s.len() - 1]) == k);
        }
    }
}

/// The live links. There is at most one for a provider and an identifier.
pub struct DedupLedger {
    entries: Vec<LinkEntry>,
}

impl View for DedupLedger {
    type V = Map<LinkKey, Link>;

    /// The live links, each under the provider and identifier it was filed
    /// for.
    closed spec fn view(&self) -> Map<LinkKey, Link> {
        links_of(self.entries@)
    }
}

impl DedupLedger {
    /// The ledger is in order: it files no two links under one key. Every
    /// ledger that this module hands out is.
    pub closed spec fn wf(&self) -> bool {
        distinct_keys(self.entries@)
    }

    /// How many live links the ledger files for a provider and identifier.
    pub closed spec fn live_links(&self, key: LinkKey) -> nat {
        count_filed(self.entries@, key)
    }

    /// A ledger files at most one live link for a provider and identifier:
    /// one if it holds a link for them, and none otherwise.
    pub proof fn lemma_at_most_one_link(&self, key: LinkKey)
        requires
            self.wf(),
        ensures
            self.live_links(key) <= 1,
            self.live_links(key) == 1 <==> self@.contains_key(key),
    {
        lemma_count_filed(self.entries@, key);
    }

    /// A ledger without links.
    pub fn new() -> (ledger: DedupLedger)
        ensures
            ledger.wf(),
            ledger@ == Map::<LinkKey, Link>::empty(),
    {
        let ledger = DedupLedger { entries: Vec::new() };
        assert(ledger@ =~= Map::<LinkKey, Link>::empty());
        ledger
    }

    /// The place of the entry filed for the provider and identifier, if
    /// there is one.
    fn find(&self, provider: &Address, identifier: &[u8]) -> (r: Option<usize>)
        ensures
            match r {
                Some(i) => i < self.entries@.len() && entry_key(self.entries@[i as int]) == (
                    *provider,
                    identifier@,
                ),
                None => !filed(self.entries@, (*provider, identifier@)),
            },
    {
        let mut i: usize = 0;
        while i < self.entries.len()
            invariant
                i <= self.entries@.len(),
                forall|j: int|
                    0 <= j < i ==> #[trigger] entry_key(self.entries@[j]) != (
                        *provider,
                        identifier@,
                    ),
            decreases self.entries@.len() - i,
        {
            if self.entries[i].provider == *provider && same_bytes(
                self.entries[i].identifier.as_slice(),
                identifier,
            ) {
                return Some(i);
            }
            i = i + 1;
        }
        None
    }

    /// The live link for the provider and identifier, if there is one.
    pub fn get(&self, provider: &Address, identifier: &[u8]) -> (r: Option<Link>)
        requires
            self.wf(),
        ensures
            r == (if self@.contains_key((*provider, identifier@)) {
                Some(self@[(*provider, identifier@)])
            } else {
                None
            }),
    {
        match self.find(provider, identifier) {
            Some(i) => {
                proof {
                    lemma_place(self.entries@, i as int);
                }
                Some(self.entries[i].link)
            },
            None => None,
        }
    }

    /// Whether a link for the provider and identifier is live.
    pub fn contains(&self, provider: &Address, identifier: &[u8]) -> (r: bool)
        requires
            self.wf(),
        ensures
            r == self@.contains_key((*provider, identifier@)),
    {
        self.get(provider, identifier).is_some()
    }

    /// Files a link for the provider and identifier, unless one is live.
    pub fn insert_if_absent(&mut self, provider: Address, identifier: Vec<u8>, link: Link) -> (r:
        Result<(), CustomError>)
        requires
            old(self).wf(),
        ensures
            final(self).wf(),
            match r {
                Ok(()) => {
                    &&& !old(self)@.contains_key((provider, identifier@))
                    &&& final(self)@ == old(self)@.insert((provider, identifier@), link)
                },
                Err(e) => {
                    &&& e == CustomError::AlreadyExists
                    &&& old(self)@.contains_key((provider, identifier@))
                    &&& final(self)@ == old(self)@
                },
            },
    {
        match self.find(&provider, identifier.as_slice()) {
            Some(i) => {
                proof {
                    lemma_place(self.entries@, i as int);
                }
                Err(CustomError::AlreadyExists)
            },
            None => {
                let ghost before = self.entries@;
                let ghost k = (provider, identifier@);
                let entry = LinkEntry { provider, identifier, link };
                self.entries.push(entry);
                proof {
                    let after = self.entries@;
                    assert(after == before.push(entry));
                    assert(distinct_keys(after)) by {
                        assert forall|i: int, j: int| 0 <= i < j < after.len() implies entry_key(
                            after[i],
                        ) != entry_key(after[j]) by {
                            if j < before.len() {
                                assert(entry_key(before[i]) != entry_key(before[j]));
                            } else {
                                assert(entry_key(before[i]) != k);
                            }
                        }
                    }
                    assert forall|q: LinkKey| filed(after, q) <==> (q == k || filed(
                        before,
                        q,
                    )) by {
                        if filed(after, q) {
                            let i = place(after, q);
                            if i < before.len() {
                                assert(entry_key(before[i]) == q);
                            }
                        }
                        if q == k {
                            assert(entry_key(after[before.len() as int]) == q);
                        }
                        if filed(before, q) {
                            let i = place(before, q);
                            assert(entry_key(after[i]) == q);
                        }
                    }
                    assert forall|q: LinkKey| filed(after, q) implies links_of(after)[q]
                        == links_of(before).insert(k, link)[q] by {
                        let i = place(after, q);
                        lemma_place(after, i);
                        if i < before.len() {
                            lemma_place(before, i);
                        }
                    }
                    assert(links_of(after) =~= links_of(before).insert(k, link));
                }
                Ok(())
            },
        }
    }

    /// Closes the live link for the provider and identifier, if there is
    /// one, and returns it.
    pub fn close(&mut self, provider: &Address, identifier: &[u8]) -> (r: Option<Link>)
        requires
            old(self).wf(),
        ensures
            final(self).wf(),
            r == (if old(self)@.contains_key((*provider, identifier@)) {
                Some(old(self)@[(*provider, identifier@)])
            } else {
                None
            }),
            final(self)@ == old(self)@.remove((*provider, identifier@)),
    {
        let ghost k = (*provider, identifier@);
        match self.find(provider, identifier) {
            Some(i) => {
                let ghost before = self.entries@;
                proof {
                    lemma_place(before, i as int);
                }
                let entry = self.entries.remove(i);
                proof {
                    let after = self.entries@;
                    assert(after == before.remove(i as int));
                    assert forall|j: int| 0 <= j < after.len() implies #[trigger] after[j] == (if j
                        < i {
                        before[j]
                    } else {
                        before[j + 1]
                    }) by {}
                    assert(distinct_keys(after)) by {
                        assert forall|a: int, b: int| 0 <= a < b < after.len() implies entry_key(
                            after[a],
                        ) != entry_key(after[b]) by {
                            let a0 = if a < i { a } else { a + 1 };
                            let b0 = if b < i { b } else { b + 1 };
                            assert(entry_key(before[a0]) != entry_key(before[b0]));
                        }
                    }
                    assert forall|q: LinkKey| filed(after, q) <==> (q != k && filed(
                        before,
                        q,
                    )) by {
                        if filed(after, q) {
                            let j = place(after, q);
                            let j0 = if j < i { j } else { j + 1 };
                            assert(entry_key(before[j0]) == q);
                            if j0 < i {
                                assert(entry_key(before[j0]) != entry_key(before[i as int]));
                            } else {
                                assert(entry_key(before[i as int]) != entry_key(before[j0]));
                            }
                        }
                        if q != k && filed(before, q) {
                            let j0 = place(before, q);
                            let j = if j0 < i { j0 } else { j0 - 1 };
                            assert(entry_key(after[j]) == q);
                        }
                    }
                    assert forall|q: LinkKey| filed(after, q) implies links_of(after)[q]
                        == links_of(before)[q] by {
                        let j = place(after, q);
                        let j0 = if j < i { j } else { j + 1 };
                        lemma_place(after, j);
                        lemma_place(before, j0);
                    }
                    assert(links_of(after) =~= links_of(before).remove(k));
                }
                Some(entry.link)
            },
            None => {
                assert(self@ =~= self@.remove(k));
                None
            },
        }
    }
}

} // verus!
