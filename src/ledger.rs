//! The account store that the transitions read and write.
use crate::address::Address;
use crate::records::{PhotoRecord, TransitionError, VouchRecord};
use vstd::prelude::*;

verus! {

/// What an account holds besides its balance.
#[derive(Clone, Copy, Debug, PartialEq, Eq)]
pub enum AccountData {
    /// No record: a plain account that only holds value.
    Empty,
    /// A photo record.
    Photo(PhotoRecord),
    /// A vouch record.
    Vouch(VouchRecord),
}

/// The state of one account.
#[derive(Clone, Copy, Debug, PartialEq, Eq)]
pub struct Account {
    /// The native value held.
    pub lamports: u64,
    /// The record held, if any.
    pub data: AccountData,
}

/// An account together with its address.
#[derive(Clone, Copy, Debug)]
struct Entry {
    key: Address,
    account: Account,
}

/// The abstract state of a ledger: the program's identity and each known account by
/// address. An address that is not known holds nothing.
pub struct LedgerView {
    pub program_id: Seq<u8>,
    pub accounts: Map<Seq<u8>, Account>,
}

/// A content-addressed store of accounts, owned by one program.
pub struct Ledger {
    program_id: Address,
    entries: Vec<Entry>,
    accounts: Ghost<Map<Seq<u8>, Account>>,
}

/// The balance at `key`: zero where no account is known.
pub open spec fn balance(l: LedgerView, key: Seq<u8>) -> u64 {
    if l.accounts.contains_key(key) {
        l.accounts[key].lamports
    } else {
        0
    }
}

/// Whether a record occupies `key`.
pub open spec fn occupied(l: LedgerView, key: Seq<u8>) -> bool {
    l.accounts.contains_key(key) && !(l.accounts[key].data is Empty)
}

/// Whether a photo record lies at `key`.
pub open spec fn holds_photo(l: LedgerView, key: Seq<u8>) -> bool {
    l.accounts.contains_key(key) && l.accounts[key].data is Photo
}

/// The photo record at `key`.
pub open spec fn photo_at(l: LedgerView, key: Seq<u8>) -> PhotoRecord
    recommends
        holds_photo(l, key),
{
    l.accounts[key].data->Photo_0
}

/// The vouch record at `key`, if one lies there.
pub open spec fn vouch_at(l: LedgerView, key: Seq<u8>) -> Option<VouchRecord> {
    if l.accounts.contains_key(key) && l.accounts[key].data is Vouch {
        Some(l.accounts[key].data->Vouch_0)
    } else {
        None
    }
}

/// `l` with the balance at `key` set to `lamports`, its record kept.
pub open spec fn with_lamports(l: LedgerView, key: Seq<u8>, lamports: u64) -> LedgerView {
    let data = if l.accounts.contains_key(key) {
        l.accounts[key].data
    } else {
        AccountData::Empty
    };
    LedgerView {
        program_id: l.program_id,
        accounts: l.accounts.insert(key, Account { lamports, data }),
    }
}

/// `l` with the record at `key` set to `data`, its balance kept.
pub open spec fn with_data(l: LedgerView, key: Seq<u8>, data: AccountData) -> LedgerView {
    LedgerView {
        program_id: l.program_id,
        accounts: l.accounts.insert(key, Account { lamports: balance(l, key), data }),
    }
}

/// `l` after `amount` moves from `from` to `to`.
pub open spec fn moved(l: LedgerView, from: Seq<u8>, to: Seq<u8>, amount: u64) -> LedgerView
    recommends
        from != to,
        amount <= balance(l, from),
        balance(l, to) + amount <= u64::MAX,
{
    let l1 = with_lamports(l, from, (balance(l, from) - amount) as u64);
    with_lamports(l1, to, (balance(l1, to) + amount) as u64)
}

impl View for Ledger {
    type V = LedgerView;

    closed spec fn view(&self) -> LedgerView {
        LedgerView { program_id: self.program_id@, accounts: self.accounts@ }
    }
}

impl Ledger {
    /// The store's internal consistency: each address appears once, and the entries are
    /// exactly the known accounts.
    pub closed spec fn wf(&self) -> bool {
        &&& forall|i: int, j: int|
            0 <= i < j < self.entries@.len() ==> self.entries@[i].key@ != self.entries@[j].key@
        &&& forall|i: int|
            0 <= i < self.entries@.len() ==> #[trigger] self.accounts@.contains_key(
                self.entries@[i].key@,
            ) && self.accounts@[self.entries@[i].key@] == self.entries@[i].account
        &&& forall|k: Seq<u8>| #[trigger]
            self.accounts@.contains_key(k) ==> exists|i: int|
                0 <= i < self.entries@.len() && self.entries@[i].key@ == k
    }

    /// An empty ledger for the program `program_id`.
    pub fn new(program_id: Address) -> (r: Ledger)
        ensures
            r.wf(),
            r@.program_id == program_id@,
            r@.accounts == Map::<Seq<u8>, Account>::empty(),
    {
        Ledger { program_id, entries: Vec::new(), accounts: Ghost(Map::empty()) }
    }

    /// The program that owns the records.
    pub fn program_id(&self) -> (r: Address)
        ensures
            r@ == self@.program_id,
    {
        self.program_id
    }

    /// Where the entry for `key` stands, if there is one.
    fn find(&self, key: &Address) -> (r: Option<usize>)
        requires
            self.wf(),
        ensures
            match r {
                Some(i) => i < self.entries@.len() && self.entries@[i as int].key@ == key@
                    && self@.accounts.contains_key(key@) && self@.accounts[key@]
                    == self.entries@[i as int].account,
                None => !self@.accounts.contains_key(key@),
            },
    {
        let mut i: usize = 0;
        while i < self.entries.len()
            invariant
                self.wf(),
                0 <= i <= self.entries@.len(),
                forall|j: int| 0 <= j < i ==> self.entries@[j].key@ != key@,
            decreases self.entries@.len() - i,
        {
            if self.entries[i].key.same_as(key) {
                assert(self.accounts@.contains_key(self.entries@[i as int].key@));
                return Some(i);
            }
            i = i + 1;
        }
        None
    }

    /// The account at `key`, if one is known.
    pub fn account(&self, key: &Address) -> (r: Option<Account>)
        requires
            self.wf(),
        ensures
            match r {
                Some(a) => self@.accounts.contains_key(key@) && self@.accounts[key@] == a,
                None => !self@.accounts.contains_key(key@),
            },
    {
        match self.find(key) {
            Some(i) => Some(self.entries[i].account),
            None => None,
        }
    }

    /// Whether a record occupies `key`.
    pub fn is_occupied(&self, key: &Address) -> (r: bool)
        requires
            self.wf(),
        ensures
            r == occupied(self@, key@),
    {
        match self.find(key) {
            Some(i) => match self.entries[i].account.data {
                AccountData::Empty => false,
                _ => true,
            },
            None => false,
        }
    }

    /// The balance at `key`.
    pub fn lamports(&self, key: &Address) -> (r: u64)
        requires
            self.wf(),
        ensures
            r == balance(self@, key@),
    {
        match self.find(key) {
            Some(i) => self.entries[i].account.lamports,
            None => 0,
        }
    }

    /// The photo record at `key`, if one lies there.
    pub fn photo_record(&self, key: &Address) -> (r: Option<PhotoRecord>)
        requires
            self.wf(),
        ensures
            match r {
                Some(p) => holds_photo(self@, key@) && photo_at(self@, key@) == p,
                None => !holds_photo(self@, key@),
            },
    {
        match self.find(key) {
            Some(i) => match self.entries[i].account.data {
                AccountData::Photo(p) => Some(p),
                _ => None,
            },
            None => None,
        }
    }

    /// The vouch record at `key`, if one lies there.
    pub fn vouch_record(&self, key: &Address) -> (r: Option<VouchRecord>)
        requires
            self.wf(),
        ensures
            r == vouch_at(self@, key@),
    {
        match self.find(key) {
            Some(i) => match self.entries[i].account.data {
                AccountData::Vouch(v) => Some(v),
                _ => None,
            },
            None => None,
        }
    }

    /// Loads `account` at `key` as the host holds it, replacing what the ledger knew there.
    pub fn load(&mut self, key: Address, account: Account)
        requires
            old(self).wf(),
        ensures
            final(self).wf(),
            final(self)@ == (LedgerView {
                program_id: old(self)@.program_id,
                accounts: old(self)@.accounts.insert(key@, account),
            }),
    {
        let ghost m = self.accounts@.insert(key@, account);
        match self.find(&key) {
            Some(i) => {
                self.entries.set(i, Entry { key, account });
                self.accounts = Ghost(m);
                assert forall|j: int| 0 <= j < self.entries@.len() implies #[trigger] self.accounts@.contains_key(
                    self.entries@[j].key@,
                ) && self.accounts@[self.entries@[j].key@] == self.entries@[j].account by {
                    if j != i {
                        assert(old(self).entries@[j].key@ != key@);
                    }
                }
                assert forall|k: Seq<u8>| #[trigger]
                    self.accounts@.contains_key(k) implies exists|j: int|
                    0 <= j < self.entries@.len() && self.entries@[j].key@ == k by {
                    if k != key@ {
                        let j = choose|j: int|
                            0 <= j < old(self).entries@.len() && old(self).entries@[j].key@ == k;
                        assert(self.entries@[j].key@ == k);
                    } else {
                        assert(self.entries@[i as int].key@ == k);
                    }
                }
            },
            None => {
                self.entries.push(Entry { key, account });
                self.accounts = Ghost(m);
                let ghost n = self.entries@.len() - 1;
                assert forall|j: int| 0 <= j < n implies old(self).entries@[j].key@ != key@ by {
                    assert(old(self).accounts@.contains_key(old(self).entries@[j].key@));
                }
                assert forall|k: Seq<u8>| #[trigger]
                    self.accounts@.contains_key(k) implies exists|j: int|
                    0 <= j < self.entries@.len() && self.entries@[j].key@ == k by {
                    if k != key@ {
                        let j = choose|j: int|
                            0 <= j < old(self).entries@.len() && old(self).entries@[j].key@ == k;
                        assert(self.entries@[j].key@ == k);
                    } else {
                        assert(self.entries@[n].key@ == k);
                    }
                }
            },
        }
    }

    /// Sets the balance at `key`, keeping its record.
    fn set_lamports(&mut self, key: Address, lamports: u64)
        requires
            old(self).wf(),
        ensures
            final(self).wf(),
            final(self)@ == with_lamports(old(self)@, key@, lamports),
    {
        let data = match self.account(&key) {
            Some(a) => a.data,
            None => AccountData::Empty,
        };
        self.load(key, Account { lamports, data });
    }

    /// Sets the record at `key`, keeping its balance.
    pub(crate) fn set_data(&mut self, key: Address, data: AccountData)
        requires
            old(self).wf(),
        ensures
            final(self).wf(),
            final(self)@ == with_data(old(self)@, key@, data),
    {
        let lamports = self.lamports(&key);
        self.load(key, Account { lamports, data });
    }

    /// Credits `amount` to `key`, as the ledger's funding does outside the program.
    /// Fails, changing nothing, where the balance would exceed its range.
    pub fn fund(&mut self, key: Address, amount: u64) -> (r: Result<(), TransitionError>)
        requires
            old(self).wf(),
        ensures
            final(self).wf(),
            balance(old(self)@, key@) + amount <= u64::MAX ==> r is Ok && final(self)@
                == with_lamports(old(self)@, key@, (balance(old(self)@, key@) + amount) as u64),
            balance(old(self)@, key@) + amount > u64::MAX ==> r == Err::<(), TransitionError>(
                TransitionError::ArithmeticOverflow,
            ) && final(self)@ == old(self)@,
    {
        let current = self.lamports(&key);
        match current.checked_add(amount) {
            Some(total) => {
                self.set_lamports(key, total);
                Ok(())
            },
            None => Err(TransitionError::ArithmeticOverflow),
        }
    }

    /// Moves `amount` from `from` to `to`: the ledger's atomic transfer. Fails, changing
    /// nothing, where `from` holds less than `amount` or the balance at `to` would exceed
    /// its range. A transfer to the payer itself changes nothing.
    pub fn transfer(&mut self, from: Address, to: Address, amount: u64) -> (r: Result<
        (),
        TransitionError,
    >)
        requires
            old(self).wf(),
        ensures
            final(self).wf(),
            match transfer_outcome(old(self)@, from@, to@, amount) {
                Ok(l) => r is Ok && final(self)@ == l,
                Err(e) => r == Err::<(), TransitionError>(e) && final(self)@ == old(self)@,
            },
    {
        let available = self.lamports(&from);
        if available < amount {
            return Err(TransitionError::InsufficientFunds);
        }
        if from.same_as(&to) {
            return Ok(());
        }
        let held = self.lamports(&to);
        match held.checked_add(amount) {
            Some(total) => {
                self.set_lamports(from, available - amount);
                self.set_lamports(to, total);
                Ok(())
            },
            None => Err(TransitionError::ArithmeticOverflow),
        }
    }
}

/// What moving `amount` from `from` to `to` yields.
pub open spec fn transfer_outcome(l: LedgerView, from: Seq<u8>, to: Seq<u8>, amount: u64) -> Result<
    LedgerView,
    TransitionError,
> {
    if balance(l, from) < amount {
        Err(TransitionError::InsufficientFunds)
    } else if from == to {
        Ok(l)
    } else if balance(l, to) + amount > u64::MAX {
        Err(TransitionError::ArithmeticOverflow)
    } else {
        Ok(moved(l, from, to, amount))
    }
}

} // verus!
