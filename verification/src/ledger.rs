//! The account ledger the operation acts on.
//!
//! An account is an address paired with its contents; the ledger holds each
//! occupied address exactly once.  Contracts speak of the ledger through
//! [`lookup`], which returns what a given address holds.

use vstd::prelude::*;

use crate::addr::{addr_eq, Address};
use crate::records::{AccountData, AccountDataV, HoldingRecordV, MetadataRecordV, MintRecordV};

verus! {

/// Mathematical view of a ledger: addresses paired with account contents.
pub type LedgerView = Seq<(Seq<u8>, AccountDataV)>;

/// What the given address holds on the ledger, if anything.
pub open spec fn lookup(l: LedgerView, a: Seq<u8>) -> Option<AccountDataV>
    decreases l.len(),
{
    if l.len() == 0 {
        None
    } else if l.last().0 == a {
        Some(l.last().1)
    } else {
        lookup(l.drop_last(), a)
    }
}

/// Each occupied address appears exactly once.
pub open spec fn keys_unique(l: LedgerView) -> bool {
    forall|i: int, j: int| 0 <= i < j < l.len() ==> l[i].0 != l[j].0
}

/// Appending one account changes what its address holds and nothing else.
pub proof fn lemma_lookup_push(l: LedgerView, a: Seq<u8>, d: AccountDataV, x: Seq<u8>)
    ensures
        lookup(l.push((a, d)), x) == if x == a {
            Some(d)
        } else {
            lookup(l, x)
        },
{
    assert(l.push((a, d)).drop_last() =~= l);
}

/// An address is absent exactly when no entry carries it.
pub proof fn lemma_lookup_none(l: LedgerView, x: Seq<u8>)
    ensures
        (lookup(l, x) is None) <==> (forall|i: int| 0 <= i < l.len() ==> l[i].0 != x),
    decreases l.len(),
{
    if l.len() > 0 {
        lemma_lookup_none(l.drop_last(), x);
        assert(forall|i: int| 0 <= i < l.len() - 1 ==> l.drop_last()[i] == l[i]);
    }
}

/// Replacing the contents at one index changes what that entry's address
/// holds and nothing else.
pub proof fn lemma_lookup_update(l: LedgerView, i: int, d: AccountDataV, x: Seq<u8>)
    requires
        keys_unique(l),
        0 <= i < l.len(),
    ensures
        lookup(l.update(i, (l[i].0, d)), x) == if x == l[i].0 {
            Some(d)
        } else {
            lookup(l, x)
        },
    decreases l.len(),
{
    let lu = l.update(i, (l[i].0, d));
    assert(forall|m: int| 0 <= m < l.len() - 1 ==> l.drop_last()[m] == l[m]);
    assert(keys_unique(l.drop_last()));
    if i == l.len() - 1 {
        assert(lu.drop_last() =~= l.drop_last());
        assert(lu.last() == (l[i].0, d));
    } else {
        assert(lu.last() == l.last());
        assert(lu.drop_last() =~= l.drop_last().update(i, (l.drop_last()[i].0, d)));
        lemma_lookup_update(l.drop_last(), i, d, x);
        assert(l.last().0 != l[i].0);
    }
}

/// Spec shorthand: the address holds an initialized mint record.
pub open spec fn is_initialized_mint_at(l: LedgerView, a: Seq<u8>) -> bool {
    match lookup(l, a) {
        Some(AccountDataV::MintAccount(m)) => m.initialized,
        _ => false,
    }
}

/// Spec shorthand: the mint record at the address (meaningful only when one
/// is there).
pub open spec fn mint_at(l: LedgerView, a: Seq<u8>) -> MintRecordV {
    match lookup(l, a) {
        Some(AccountDataV::MintAccount(m)) => m,
        _ => MintRecordV {
            decimals: 0,
            mint_authority: Seq::empty(),
            freeze_authority: Seq::empty(),
            supply: 0,
            initialized: false,
        },
    }
}

/// Spec shorthand: the metadata record at the address (meaningful only when
/// one is there).
pub open spec fn metadata_at(l: LedgerView, a: Seq<u8>) -> MetadataRecordV {
    match lookup(l, a) {
        Some(AccountDataV::MetadataAccount(m)) => m,
        _ => MetadataRecordV {
            mint: Seq::empty(),
            update_authority: Seq::empty(),
            name: Seq::empty(),
            symbol: Seq::empty(),
            uri: Seq::empty(),
            seller_fee_basis_points: 0,
            primary_sale_happened: false,
            is_mutable: false,
        },
    }
}

/// Spec shorthand: the address holds a holding account.
pub open spec fn is_holding_at(l: LedgerView, a: Seq<u8>) -> bool {
    match lookup(l, a) {
        Some(AccountDataV::HoldingAccount(_)) => true,
        _ => false,
    }
}

/// Spec shorthand: the holding record at the address (meaningful only when
/// one is there).
pub open spec fn holding_at(l: LedgerView, a: Seq<u8>) -> HoldingRecordV {
    match lookup(l, a) {
        Some(AccountDataV::HoldingAccount(h)) => h,
        _ => HoldingRecordV { mint: Seq::empty(), owner: Seq::empty(), amount: 0 },
    }
}

/// The account ledger: every occupied address with its contents.
pub struct Ledger {
    pub accounts: Vec<(Address, AccountData)>,
}

impl View for Ledger {
    type V = LedgerView;

    open spec fn view(&self) -> LedgerView {
        self.accounts@.map(|i: int, p: (Address, AccountData)| (p.0@, p.1@))
    }
}

impl Ledger {
    /// The ledger is well formed: no address occupied twice.
    pub open spec fn wf(&self) -> bool {
        keys_unique(self@)
    }

    /// An empty ledger.
    pub fn new() -> (r: Ledger)
        ensures
            r.wf(),
            r@.len() == 0,
    {
        let r = Ledger { accounts: Vec::new() };
        proof {
            assert(r@ =~= Seq::<(Seq<u8>, AccountDataV)>::empty());
        }
        r
    }

    fn find_index(&self, a: &Address) -> (r: Option<usize>)
        ensures
            r is None ==> lookup(self@, a@) is None,
            r matches Some(i) ==> i < self@.len() && self@[i as int].0 == a@ && lookup(self@, a@)
                == Some(self@[i as int].1),
    {
        let ghost full = self@;
        let mut i: usize = self.accounts.len();
        proof {
            assert(full.take(i as int) =~= full);
        }
        while i > 0
            invariant
                i <= self.accounts.len(),
                full == self@,
                full.len() == self.accounts@.len(),
                lookup(full, a@) == lookup(full.take(i as int), a@),
            decreases i,
        {
            let idx = i - 1;
            let p = &self.accounts[idx];
            if addr_eq(&p.0, a) {
                proof {
                    assert(full.take(i as int).last() == full[idx as int]);
                    assert(full[idx as int].0 == a@);
                }
                return Some(idx);
            }
            proof {
                assert(full.take(i as int).last() == full[idx as int]);
                assert(full.take(i as int).drop_last() =~= full.take(idx as int));
            }
            i = idx;
        }
        proof {
            assert(full.take(0) =~= Seq::<(Seq<u8>, AccountDataV)>::empty());
        }
        None
    }

    /// What the given address holds, if anything.
    pub fn get(&self, a: &Address) -> (r: Option<&AccountData>)
        ensures
            r is None ==> lookup(self@, a@) is None,
            r matches Some(d) ==> lookup(self@, a@) == Some(d@),
    {
        match self.find_index(a) {
            Some(i) => Some(&self.accounts[i].1),
            None => None,
        }
    }

    /// Whether the given address is occupied.
    pub fn contains(&self, a: &Address) -> (r: bool)
        ensures
            r <==> (lookup(self@, a@) is Some),
    {
        match self.find_index(a) {
            Some(_) => true,
            None => false,
        }
    }

    /// Occupies an address with a fresh account; refuses an occupied address
    /// and leaves the ledger unchanged in that case.
    pub fn insert_new(&mut self, a: Address, d: AccountData) -> (r: bool)
        requires
            old(self).wf(),
        ensures
            final(self).wf(),
            r <==> (lookup(old(self)@, a@) is None),
            r ==> final(self)@ == old(self)@.push((a@, d@)),
            !r ==> final(self)@ == old(self)@,
    {
        if self.contains(&a) {
            return false;
        }
        proof {
            lemma_lookup_none(self@, a@);
        }
        self.accounts.push((a, d));
        proof {
            assert(self@ =~= old(self)@.push((a@, d@)));
            assert forall|i: int, j: int| 0 <= i < j < self@.len() implies self@[i].0
                != self@[j].0 by {
                if j < self@.len() - 1 {
                    assert(old(self).wf());
                } else {
                    assert(self@[j].0 == a@);
                }
            }
        }
        true
    }

    fn set_at(&mut self, i: usize, d: AccountData)
        requires
            old(self).wf(),
            i < old(self)@.len(),
        ensures
            final(self).wf(),
            final(self)@ == old(self)@.update(i as int, (old(self)@[i as int].0, d@)),
    {
        let p = self.accounts.remove(i);
        self.accounts.insert(i, (p.0, d));
        proof {
            assert(self@ =~= old(self)@.update(i as int, (old(self)@[i as int].0, d@)));
            assert forall|m: int, j: int| 0 <= m < j < self@.len() implies self@[m].0
                != self@[j].0 by {
                assert(self@[m].0 == old(self)@[m].0);
                assert(self@[j].0 == old(self)@[j].0);
            }
        }
    }

    /// Replaces what an occupied address holds.
    pub fn replace(&mut self, a: &Address, d: AccountData) -> (r: bool)
        requires
            old(self).wf(),
        ensures
            final(self).wf(),
            r <==> (lookup(old(self)@, a@) is Some),
            r ==> forall|x: Seq<u8>|
                lookup(final(self)@, x) == if x == a@ {
                    Some(d@)
                } else {
                    lookup(old(self)@, x)
                },
            !r ==> final(self)@ == old(self)@,
    {
        match self.find_index(a) {
            Some(i) => {
                proof {
                    assert(old(self)@[i as int].0 == a@);
                }
                self.set_at(i, d);
                proof {
                    assert forall|x: Seq<u8>|
                        lookup(self@, x) == (if x == a@ {
                            Some(d@)
                        } else {
                            lookup(old(self)@, x)
                        }) by {
                        lemma_lookup_update(old(self)@, i as int, d@, x);
                    }
                }
                true
            },
            None => false,
        }
    }
}

} // verus!
