//! The account store: a ledger mapping addresses to records.
//!
//! The ledger is the storage layer under the three operations. It offers
//! exclusive, initialize-once creation and typed read access, and its
//! mathematical content is the map from each address to the record stored
//! under it (the view `self@`). Internally it keeps a vector of entries
//! with pairwise-distinct addresses; that well-formedness is a type
//! invariant, so callers never see it.

use vstd::prelude::*;
use vstd::pervasive::VecAdditionalExecFns;
use crate::identity::{Identity, identity_eq};
use crate::records::{MintDescriptor, Record, TokenAccount};

verus! {

/// One stored record together with the address it is stored under.
#[derive(Clone, Copy, PartialEq, Eq, Debug)]
pub struct LedgerEntry {
    /// The address of the record.
    pub id: Identity,
    /// The record stored under that address.
    pub record: Record,
}

/// The mathematical contents of a sequence of entries: the map from each
/// address to the record stored under it.
spec fn map_of(s: Seq<LedgerEntry>) -> Map<Seq<u8>, Record>
    decreases s.len(),
{
    if s.len() == 0 {
        Map::empty()
    } else {
        map_of(s.drop_last()).insert(s.last().id@, s.last().record)
    }
}

/// All entries sit under pairwise-distinct addresses.
spec fn distinct_ids(s: Seq<LedgerEntry>) -> bool {
    forall|i: int, j: int|
        #![trigger s[i].id, s[j].id]
        0 <= i < j < s.len() ==> s[i].id@ != s[j].id@
}

/// An address occurs in the map of a sequence of entries exactly when some
/// entry carries it.
proof fn lemma_map_of_contains(s: Seq<LedgerEntry>, k: Seq<u8>)
    ensures
        map_of(s).contains_key(k) <==> exists|i: int|
            0 <= i < s.len() && #[trigger] s[i].id@ == k,
    decreases s.len(),
{
    if s.len() == 0 {
    } else {
        lemma_map_of_contains(s.drop_last(), k);
        if s.last().id@ == k {
            assert(s[s.len() - 1].id@ == k);
        } else {
            if exists|i: int| 0 <= i < s.len() && #[trigger] s[i].id@ == k {
                let i = choose|i: int| 0 <= i < s.len() && #[trigger] s[i].id@ == k;
                assert(s.drop_last()[i].id@ == k);
            }
        }
    }
}

/// Dropping the last entry keeps the addresses pairwise distinct.
proof fn lemma_distinct_drop_last(s: Seq<LedgerEntry>)
    requires
        distinct_ids(s),
        s.len() > 0,
    ensures
        distinct_ids(s.drop_last()),
{
    assert forall|i: int, j: int|
        0 <= i < j < s.drop_last().len() implies #[trigger] s.drop_last()[i].id@
        != #[trigger] s.drop_last()[j].id@ by {
        assert(s.drop_last()[i] == s[i]);
        assert(s.drop_last()[j] == s[j]);
    }
}

/// In a sequence of entries with distinct addresses, the map sends the
/// address of any entry to that entry's record.
proof fn lemma_map_of_get(s: Seq<LedgerEntry>, k: Seq<u8>, i: int)
    requires
        distinct_ids(s),
        0 <= i < s.len(),
        s[i].id@ == k,
    ensures
        map_of(s).contains_key(k),
        map_of(s)[k] == s[i].record,
    decreases s.len(),
{
    if i == s.len() - 1 {
    } else {
        assert(s[i].id@ != s[s.len() - 1].id@);
        lemma_distinct_drop_last(s);
        assert(s.drop_last()[i] == s[i]);
        lemma_map_of_get(s.drop_last(), k, i);
    }
}

/// Appending an entry inserts its record into the map under its address.
proof fn lemma_map_of_push(s: Seq<LedgerEntry>, e: LedgerEntry)
    ensures
        map_of(s.push(e)) == map_of(s).insert(e.id@, e.record),
{
    assert(s.push(e).drop_last() =~= s);
    assert(s.push(e).last() == e);
}

/// Replacing the entry at an address with another entry under the same
/// address overwrites that address in the map and touches nothing else.
proof fn lemma_map_of_update(s: Seq<LedgerEntry>, i: int, e: LedgerEntry)
    requires
        distinct_ids(s),
        0 <= i < s.len(),
        e.id@ == s[i].id@,
    ensures
        map_of(s.update(i, e)) == map_of(s).insert(e.id@, e.record),
    decreases s.len(),
{
    let t = s.update(i, e);
    if i == s.len() - 1 {
        assert(t.drop_last() =~= s.drop_last());
        assert(t.last() == e);
        assert(map_of(s).insert(e.id@, e.record) =~= map_of(s.drop_last()).insert(
            e.id@,
            e.record,
        ));
    } else {
        assert(t.last() == s.last());
        assert(t.drop_last() =~= s.drop_last().update(i, e));
        lemma_distinct_drop_last(s);
        assert(s.drop_last()[i] == s[i]);
        lemma_map_of_update(s.drop_last(), i, e);
        assert(s[i].id@ != s[s.len() - 1].id@);
        assert(map_of(s.drop_last()).insert(e.id@, e.record).insert(
            s.last().id@,
            s.last().record,
        ) =~= map_of(s.drop_last()).insert(s.last().id@, s.last().record).insert(
            e.id@,
            e.record,
        ));
    }
}

/// The account store: records held under pairwise-distinct addresses.
/// Its view `self@` is the map from each address to its record.
pub struct Ledger {
    entries: Vec<LedgerEntry>,
}

impl View for Ledger {
    type V = Map<Seq<u8>, Record>;

    closed spec fn view(&self) -> Map<Seq<u8>, Record> {
        map_of(self.entries@)
    }
}

impl Ledger {
    /// Well-formedness: no address is stored twice.
    #[verifier::type_invariant]
    spec fn wf(self) -> bool {
        distinct_ids(self.entries@)
    }

    /// The empty ledger: no record under any address.
    pub fn new() -> (l: Ledger)
        ensures
            l@ == Map::<Seq<u8>, Record>::empty(),
    {
        Ledger { entries: Vec::new() }
    }

    /// The position of the entry stored under `id`, if any.
    fn find_index(&self, id: &Identity) -> (r: Option<usize>)
        ensures
            match r {
                Some(i) => i < self.entries@.len() && self.entries@[i as int].id@ == id@,
                None => !self@.contains_key(id@),
            },
    {
        let mut i: usize = 0;
        while i < self.entries.len()
            invariant
                i <= self.entries@.len(),
                forall|j: int| 0 <= j < i ==> #[trigger] self.entries@[j].id@ != id@,
            decreases self.entries@.len() - i,
        {
            if identity_eq(&self.entries[i].id, id) {
                return Some(i);
            }
            i = i + 1;
        }
        proof {
            lemma_map_of_contains(self.entries@, id@);
        }
        None
    }

    /// Whether any record is stored under `id`.
    pub fn contains_id(&self, id: &Identity) -> (r: bool)
        ensures
            r == self@.contains_key(id@),
    {
        proof {
            use_type_invariant(&*self);
        }
        match self.find_index(id) {
            Some(i) => {
                proof {
                    lemma_map_of_get(self.entries@, id@, i as int);
                }
                true
            },
            None => false,
        }
    }

    /// The mint descriptor stored under `id`, or `None` when `id` holds no
    /// record or a record of the wrong kind (a typed read).
    pub fn get_mint(&self, id: &Identity) -> (r: Option<MintDescriptor>)
        ensures
            match r {
                Some(d) => self@.contains_key(id@) && self@[id@] == Record::Mint(d),
                None => !(self@.contains_key(id@) && self@[id@] is Mint),
            },
    {
        proof {
            use_type_invariant(&*self);
        }
        match self.find_index(id) {
            Some(i) => {
                proof {
                    lemma_map_of_get(self.entries@, id@, i as int);
                }
                match &self.entries[i].record {
                    Record::Mint(d) => Some(*d),
                    Record::Token(_) => None,
                }
            },
            None => None,
        }
    }

    /// The token account stored under `id`, or `None` when `id` holds no
    /// record or a record of the wrong kind (a typed read).
    pub fn get_token_account(&self, id: &Identity) -> (r: Option<TokenAccount>)
        ensures
            match r {
                Some(t) => self@.contains_key(id@) && self@[id@] == Record::Token(t),
                None => !(self@.contains_key(id@) && self@[id@] is Token),
            },
    {
        proof {
            use_type_invariant(&*self);
        }
        match self.find_index(id) {
            Some(i) => {
                proof {
                    lemma_map_of_get(self.entries@, id@, i as int);
                }
                match &self.entries[i].record {
                    Record::Token(t) => Some(*t),
                    Record::Mint(_) => None,
                }
            },
            None => None,
        }
    }

    /// Stores a record under a fresh address: exclusive, initialize-once
    /// creation.
    pub fn insert_new(&mut self, id: Identity, record: Record)
        requires
            !old(self)@.contains_key(id@),
        ensures
            final(self)@ == old(self)@.insert(id@, record),
    {
        proof {
            use_type_invariant(&*self);
            lemma_map_of_contains(self.entries@, id@);
        }
        let ghost s0 = self.entries@;
        let e = LedgerEntry { id, record };
        let mut entries: Vec<LedgerEntry> = Vec::new();
        std::mem::swap(&mut entries, &mut self.entries);
        entries.push(e);
        proof {
            assert forall|a: int, b: int|
                0 <= a < b < entries@.len() implies #[trigger] entries@[a].id@
                != #[trigger] entries@[b].id@ by {
                assert(entries@[a] == s0[a]);
                if b == s0.len() {
                    assert(!(0 <= a < s0.len() && s0[a].id@ == id@));
                } else {
                    assert(entries@[b] == s0[b]);
                }
            }
            lemma_map_of_push(s0, e);
        }
        self.entries = entries;
    }

    /// Overwrites the record stored under an existing address; every other
    /// address keeps its record.
    pub fn update_record(&mut self, id: &Identity, record: Record)
        requires
            old(self)@.contains_key(id@),
        ensures
            final(self)@ == old(self)@.insert(id@, record),
    {
        proof {
            use_type_invariant(&*self);
        }
        match self.find_index(id) {
            Some(i) => {
                let ghost s0 = self.entries@;
                let stored_id = self.entries[i].id;
                let e = LedgerEntry { id: stored_id, record };
                let mut entries: Vec<LedgerEntry> = Vec::new();
                std::mem::swap(&mut entries, &mut self.entries);
                entries.set(i, e);
                proof {
                    assert forall|a: int, b: int|
                        0 <= a < b < entries@.len() implies #[trigger] entries@[a].id@
                        != #[trigger] entries@[b].id@ by {
                        assert(entries@[a].id@ == s0[a].id@);
                        assert(entries@[b].id@ == s0[b].id@);
                    }
                    lemma_map_of_update(s0, i as int, e);
                }
                self.entries = entries;
            },
            None => {
                proof {
                    assert(false);
                }
            },
        }
    }
}

} // verus!
