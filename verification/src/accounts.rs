//! Accounts handed in for an update, by address.
use vstd::prelude::*;

use crate::key::{same_key, Pubkey};

verus! {

/// The owner program and the contents of an account.
#[derive(Clone, Debug, PartialEq, Eq)]
pub struct Account {
    pub owner: Pubkey,
    pub data: Vec<u8>,
}

/// What an account holds.
pub ghost struct AccountView {
    pub owner: Pubkey,
    pub data: Seq<u8>,
}

impl View for Account {
    type V = AccountView;

    open spec fn view(&self) -> AccountView {
        AccountView { owner: self.owner, data: self.data@ }
    }
}

/// A map from address to account.
#[derive(Clone, Debug)]
pub struct AccountMap {
    entries: Vec<(Pubkey, Account)>,
}

/// The map that entries stand for: of two under one address, the later counts.
spec fn entries_map(entries: Seq<(Pubkey, Account)>) -> Map<Pubkey, AccountView>
    decreases entries.len(),
{
    if entries.len() == 0 {
        Map::empty()
    } else {
        entries_map(entries.drop_last()).insert(entries.last().0, entries.last().1@)
    }
}

impl View for AccountMap {
    type V = Map<Pubkey, AccountView>;

    closed spec fn view(&self) -> Map<Pubkey, AccountView> {
        entries_map(self.entries@)
    }
}

impl AccountMap {
    /// A map without accounts.
    pub fn new() -> (map: AccountMap)
        ensures
            map@ == Map::<Pubkey, AccountView>::empty(),
    {
        AccountMap { entries: Vec::new() }
    }

    /// Puts an account at an address, in place of one that is there.
    pub fn insert(&mut self, key: Pubkey, account: Account)
        ensures
            final(self)@ == old(self)@.insert(key, account@),
    {
        self.entries.push((key, account));
        assert(self.entries@.drop_last() =~= old(self).entries@);
    }

    /// The account at an address.
    pub fn get(&self, key: &Pubkey) -> (account: Option<&Account>)
        ensures
            account is Some <==> self@.dom().contains(*key),
            account matches Some(found) ==> found@ == self@[*key],
    {
        let mut i: usize = self.entries.len();
        assert(self.entries@.take(i as int) =~= self.entries@);
        while i > 0
            invariant
                i <= self.entries@.len(),
                entries_map(self.entries@.take(i as int)).dom().contains(*key)
                    <==> self@.dom().contains(*key),
                self@.dom().contains(*key) ==> entries_map(self.entries@.take(i as int))[*key]
                    == self@[*key],
            decreases i,
        {
            i = i - 1;
            assert(self.entries@.take(i + 1).drop_last() =~= self.entries@.take(i as int));
            assert(self.entries@.take(i + 1).last() == self.entries@[i as int]);
            if same_key(&self.entries[i].0, key) {
                return Some(&self.entries[i].1);
            }
        }
        None
    }
}

} // verus!
