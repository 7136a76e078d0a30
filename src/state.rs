use vstd::prelude::*;
use crate::pubkey::Pubkey;
use crate::rate_limit::RateLimit;

verus! {

/// The policy binding one minting authority to one asset.
#[derive(Clone, Copy, Debug, PartialEq, Eq, Structural)]
pub struct Minter {
    pub minter_authority: Pubkey,
    pub mint_account: Pubkey,
    pub admin: Pubkey,
    pub pending_admin: Option<Pubkey>,
    pub rate_limit: RateLimit,
}

/// An allow-list entry: its existence lets the authority mint the asset to
/// `to_address`.
#[derive(Clone, Copy, Debug, PartialEq, Eq, Structural)]
pub struct WhitelistedAddress {
    pub minter_authority: Pubkey,
    pub mint_account: Pubkey,
    pub to_address: Pubkey,
}

/// Key of a policy: (minting authority, asset).
pub type PolicyKey = (Pubkey, Pubkey);

/// Key of an allow-list entry: (minting authority, asset, destination).
pub type EntryKey = (Pubkey, Pubkey, Pubkey);

pub open spec fn policy_key(m: Minter) -> PolicyKey {
    (m.minter_authority, m.mint_account)
}

pub open spec fn entry_key(w: WhitelistedAddress) -> EntryKey {
    (w.minter_authority, w.mint_account, w.to_address)
}

impl Minter {
    /// A nominee, when present, differs from the current admin.
    pub open spec fn wf(self) -> bool {
        self.pending_admin != Some(self.admin)
    }
}

/// What the store holds: the policies by key and the allow-listed keys.
pub struct RegistryModel {
    pub minters: Map<PolicyKey, Minter>,
    pub whitelist: Set<EntryKey>,
}

impl RegistryModel {
    pub open spec fn wf(self) -> bool {
        forall|k: PolicyKey| #[trigger] self.minters.contains_key(k) ==> {
            &&& policy_key(self.minters[k]) == k
            &&& self.minters[k].wf()
        }
    }
}

/// The record store: at most one policy per (authority, asset) and at most
/// one allow-list entry per (authority, asset, destination).
pub struct Registry {
    minters: Vec<Minter>,
    whitelist: Vec<WhitelistedAddress>,
    policies: Ghost<Map<PolicyKey, Minter>>,
    entries: Ghost<Set<EntryKey>>,
}

impl View for Registry {
    type V = RegistryModel;

    closed spec fn view(&self) -> RegistryModel {
        RegistryModel { minters: self.policies@, whitelist: self.entries@ }
    }
}

impl Registry {
    pub closed spec fn wf(&self) -> bool {
        &&& self@.wf()
        &&& forall|i: int| 0 <= i < self.minters@.len() ==> {
            &&& #[trigger] self.policies@.contains_key(policy_key(self.minters@[i]))
            &&& self.policies@[policy_key(self.minters@[i])] == self.minters@[i]
        }
        &&& forall|k: PolicyKey| #[trigger] self.policies@.contains_key(k) ==>
            exists|i: int| 0 <= i < self.minters@.len() && policy_key(self.minters@[i]) == k
        &&& forall|i: int, j: int|
            0 <= i < self.minters@.len() && 0 <= j < self.minters@.len()
            && policy_key(#[trigger] self.minters@[i]) == policy_key(#[trigger] self.minters@[j]) ==> i == j
        &&& forall|i: int| 0 <= i < self.whitelist@.len() ==>
            #[trigger] self.entries@.contains(entry_key(self.whitelist@[i]))
        &&& forall|k: EntryKey| #[trigger] self.entries@.contains(k) ==>
            exists|i: int| 0 <= i < self.whitelist@.len() && entry_key(self.whitelist@[i]) == k
        &&& forall|i: int, j: int|
            0 <= i < self.whitelist@.len() && 0 <= j < self.whitelist@.len()
            && entry_key(#[trigger] self.whitelist@[i]) == entry_key(#[trigger] self.whitelist@[j]) ==> i == j
    }

    /// An empty store.
    pub fn new() -> (r: Registry)
        ensures
            r.wf(),
            r@.minters == Map::<PolicyKey, Minter>::empty(),
            r@.whitelist == Set::<EntryKey>::empty(),
    {
        Registry {
            minters: Vec::new(),
            whitelist: Vec::new(),
            policies: Ghost(Map::empty()),
            entries: Ghost(Set::empty()),
        }
    }

    /// The policy stored under (authority, asset), if any.
    pub fn get_minter(&self, minter_authority: Pubkey, mint_account: Pubkey) -> (r: Option<Minter>)
        requires
            self.wf(),
        ensures
            r == (if self@.minters.contains_key((minter_authority, mint_account)) {
                Some(self@.minters[(minter_authority, mint_account)])
            } else {
                None
            }),
            self@.wf(),
    {
        match self.find_minter(minter_authority, mint_account) {
            Some(i) => Some(self.minters[i]),
            None => None,
        }
    }

    fn find_minter(&self, minter_authority: Pubkey, mint_account: Pubkey) -> (r: Option<usize>)
        requires
            self.wf(),
        ensures
            match r {
                Some(i) => i < self.minters@.len()
                    && policy_key(self.minters@[i as int]) == (minter_authority, mint_account)
                    && self@.minters.contains_key((minter_authority, mint_account))
                    && self@.minters[(minter_authority, mint_account)] == self.minters@[i as int],
                None => !self@.minters.contains_key((minter_authority, mint_account)),
            },
    {
        let mut i: usize = 0;
        while i < self.minters.len()
            invariant
                self.wf(),
                i <= self.minters@.len(),
                forall|j: int| 0 <= j < i ==> policy_key(#[trigger] self.minters@[j]) != (minter_authority, mint_account),
            decreases self.minters@.len() - i,
        {
            let m = self.minters[i];
            if m.minter_authority == minter_authority && m.mint_account == mint_account {
                assert(self.policies@.contains_key(policy_key(self.minters@[i as int])));
                return Some(i);
            }
            i = i + 1;
        }
        None
    }

    /// Whether (authority, asset, destination) is allow-listed.
    pub fn is_permitted(&self, minter_authority: Pubkey, mint_account: Pubkey, to_address: Pubkey) -> (r: bool)
        requires
            self.wf(),
        ensures
            r == self@.whitelist.contains((minter_authority, mint_account, to_address)),
    {
        self.find_entry(minter_authority, mint_account, to_address).is_some()
    }

    fn find_entry(&self, minter_authority: Pubkey, mint_account: Pubkey, to_address: Pubkey) -> (r: Option<usize>)
        requires
            self.wf(),
        ensures
            match r {
                Some(i) => i < self.whitelist@.len()
                    && entry_key(self.whitelist@[i as int]) == (minter_authority, mint_account, to_address)
                    && self@.whitelist.contains((minter_authority, mint_account, to_address)),
                None => !self@.whitelist.contains((minter_authority, mint_account, to_address)),
            },
    {
        let mut i: usize = 0;
        while i < self.whitelist.len()
            invariant
                self.wf(),
                i <= self.whitelist@.len(),
                forall|j: int| 0 <= j < i ==>
                    entry_key(#[trigger] self.whitelist@[j]) != (minter_authority, mint_account, to_address),
            decreases self.whitelist@.len() - i,
        {
            let w = self.whitelist[i];
            if w.minter_authority == minter_authority && w.mint_account == mint_account
                && w.to_address == to_address {
                assert(self.entries@.contains(entry_key(self.whitelist@[i as int])));
                return Some(i);
            }
            i = i + 1;
        }
        None
    }

    /// Stores a policy under its key, replacing the one stored there if any.
    pub fn put_minter(&mut self, m: Minter)
        requires
            old(self).wf(),
            m.wf(),
        ensures
            final(self).wf(),
            final(self)@.minters == old(self)@.minters.insert(policy_key(m), m),
            final(self)@.whitelist == old(self)@.whitelist,
    {
        let found = self.find_minter(m.minter_authority, m.mint_account);
        let ghost k = policy_key(m);
        let ghost before = self.minters@;
        let ghost pos: int;
        match found {
            Some(i) => {
                proof {
                    pos = i as int;
                    assert forall|j: int| 0 <= j < before.len() && j != pos implies
                        policy_key(#[trigger] before[j]) != k by {
                        if policy_key(before[j]) == k {
                            assert(policy_key(before[j]) == policy_key(before[pos]));
                        }
                    }
                }
                self.minters.set(i, m);
            },
            None => {
                proof {
                    pos = before.len() as int;
                    assert forall|j: int| 0 <= j < before.len() implies
                        policy_key(#[trigger] before[j]) != k by {
                        assert(old(self).policies@.contains_key(policy_key(before[j])));
                    }
                }
                self.minters.push(m);
            },
        }
        assert(self.minters@.len() == before.len() || self.minters@.len() == before.len() + 1);
        assert(forall|j: int| 0 <= j < self.minters@.len() ==>
            #[trigger] self.minters@[j] == if j == pos { m } else { before[j] });
        self.policies = Ghost(self.policies@.insert(k, m));
        assert forall|j: int| 0 <= j < self.minters@.len() implies {
            &&& #[trigger] self.policies@.contains_key(policy_key(self.minters@[j]))
            &&& self.policies@[policy_key(self.minters@[j])] == self.minters@[j]
        } by {
            if j != pos {
                assert(old(self).policies@.contains_key(policy_key(before[j])));
            }
        }
        assert forall|a: int, b: int|
            0 <= a < self.minters@.len() && 0 <= b < self.minters@.len()
            && policy_key(#[trigger] self.minters@[a]) == policy_key(#[trigger] self.minters@[b]) implies a == b by {
            if a != pos && b != pos {
                assert(policy_key(before[a]) == policy_key(before[b]));
            }
        }
        assert(self.whitelist@ == old(self).whitelist@);
        assert(self.entries@ == old(self).entries@);
        assert forall|kk: PolicyKey| #[trigger] self.policies@.contains_key(kk) implies
            exists|i: int| 0 <= i < self.minters@.len() && policy_key(self.minters@[i]) == kk by {
            if kk != k {
                let i = choose|i: int| 0 <= i < before.len() && policy_key(before[i]) == kk;
                assert(policy_key(self.minters@[i]) == kk);
            } else {
                assert(policy_key(self.minters@[pos]) == kk);
            }
        }
    }

    /// Adds an allow-list entry whose key is not present yet.
    pub fn add_entry(&mut self, w: WhitelistedAddress)
        requires
            old(self).wf(),
            !old(self)@.whitelist.contains(entry_key(w)),
        ensures
            final(self).wf(),
            final(self)@.whitelist == old(self)@.whitelist.insert(entry_key(w)),
            final(self)@.minters == old(self)@.minters,
    {
        let ghost k = entry_key(w);
        self.whitelist.push(w);
        self.entries = Ghost(self.entries@.insert(k));
        let ghost before = old(self).whitelist@;
        assert forall|a: int, b: int|
            0 <= a < self.whitelist@.len() && 0 <= b < self.whitelist@.len()
            && entry_key(#[trigger] self.whitelist@[a]) == entry_key(#[trigger] self.whitelist@[b]) implies a == b by {
            if a < before.len() {
                assert(old(self).entries@.contains(entry_key(before[a])));
            }
            if b < before.len() {
                assert(old(self).entries@.contains(entry_key(before[b])));
            }
        }
        assert forall|kk: EntryKey| #[trigger] self.entries@.contains(kk) implies
            exists|i: int| 0 <= i < self.whitelist@.len() && entry_key(self.whitelist@[i]) == kk by {
            if kk != k {
                let i = choose|i: int| 0 <= i < old(self).whitelist@.len() && entry_key(old(self).whitelist@[i]) == kk;
                assert(entry_key(self.whitelist@[i]) == kk);
            } else {
                assert(entry_key(self.whitelist@[old(self).whitelist@.len() as int]) == kk);
            }
        }
        assert(self.minters@ == old(self).minters@);
        assert(self.policies@ == old(self).policies@);
        assert(self@.minters == old(self)@.minters);
        assert(self@.wf());
        assert forall|kk: PolicyKey| #[trigger] self.policies@.contains_key(kk) implies
            exists|j: int| 0 <= j < self.minters@.len() && policy_key(self.minters@[j]) == kk by {
            let j = choose|j: int| 0 <= j < old(self).minters@.len() && policy_key(old(self).minters@[j]) == kk;
            assert(policy_key(self.minters@[j]) == kk);
        }
    }

    /// Removes the allow-list entry at position `i`.
    fn remove_entry_at(&mut self, i: usize)
        requires
            old(self).wf(),
            i < old(self).whitelist@.len(),
        ensures
            final(self).wf(),
            final(self)@.whitelist == old(self)@.whitelist.remove(entry_key(old(self).whitelist@[i as int])),
            final(self)@.minters == old(self)@.minters,
    {
        let ghost k = entry_key(self.whitelist@[i as int]);
        let ghost before = self.whitelist@;
        self.whitelist.remove(i);
        self.entries = Ghost(self.entries@.remove(k));
        assert forall|j: int| 0 <= j < self.whitelist@.len() implies
            #[trigger] self.entries@.contains(entry_key(self.whitelist@[j])) by {
            if j < i {
                assert(self.whitelist@[j] == before[j]);
            } else {
                assert(self.whitelist@[j] == before[j + 1]);
            }
        }
        assert forall|kk: EntryKey| #[trigger] self.entries@.contains(kk) implies
            exists|j: int| 0 <= j < self.whitelist@.len() && entry_key(self.whitelist@[j]) == kk by {
            let j = choose|j: int| 0 <= j < before.len() && entry_key(before[j]) == kk;
            if j < i {
                assert(entry_key(self.whitelist@[j]) == kk);
            } else {
                assert(j != i);
                assert(entry_key(self.whitelist@[j - 1]) == kk);
            }
        }
        assert forall|a: int, b: int|
            0 <= a < self.whitelist@.len() && 0 <= b < self.whitelist@.len()
            && entry_key(#[trigger] self.whitelist@[a]) == entry_key(#[trigger] self.whitelist@[b]) implies a == b by {
            let a2 = if a < i { a } else { a + 1 };
            let b2 = if b < i { b } else { b + 1 };
            assert(self.whitelist@[a] == before[a2]);
            assert(self.whitelist@[b] == before[b2]);
        }
        assert(forall|kk: EntryKey| #[trigger] self.entries@.contains(kk) ==> old(self).entries@.contains(kk));
        assert(self.minters@ == old(self).minters@);
        assert(self.policies@ == old(self).policies@);
        assert(self@.minters == old(self)@.minters);
        assert(self@.wf());
        assert forall|kk: PolicyKey| #[trigger] self.policies@.contains_key(kk) implies
            exists|j: int| 0 <= j < self.minters@.len() && policy_key(self.minters@[j]) == kk by {
            let j = choose|j: int| 0 <= j < old(self).minters@.len() && policy_key(old(self).minters@[j]) == kk;
            assert(policy_key(self.minters@[j]) == kk);
        }
    }

    /// Removes the allow-list entry with the given key, which is present.
    pub fn remove_entry(&mut self, minter_authority: Pubkey, mint_account: Pubkey, to_address: Pubkey)
        requires
            old(self).wf(),
            old(self)@.whitelist.contains((minter_authority, mint_account, to_address)),
        ensures
            final(self).wf(),
            final(self)@.whitelist == old(self)@.whitelist.remove((minter_authority, mint_account, to_address)),
            final(self)@.minters == old(self)@.minters,
    {
        match self.find_entry(minter_authority, mint_account, to_address) {
            Some(i) => self.remove_entry_at(i),
            None => {},
        }
    }
}

} // verus!
