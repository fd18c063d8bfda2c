use crate::address::Address;
use crate::error::LedgerError;
use crate::records::{Charter, CharterTreasury, Listing, Receipt};
use vstd::prelude::*;

verus! {

/// A holding of tokens of one mint.
#[derive(Clone, Copy, Debug, PartialEq, Eq)]
pub struct TokenAccount {
    pub mint: Address,
    /// The authority that may move the tokens and close the account.
    pub owner: Address,
    pub amount: u64,
    /// While frozen, nothing can be moved out of the account.
    pub is_frozen: bool,
}

/// A kind of token.
#[derive(Clone, Copy, Debug, PartialEq, Eq)]
pub struct Mint {
    /// The authority that may mint and burn.
    pub mint_authority: Option<Address>,
    /// The tokens in existence.
    pub supply: u64,
    pub decimals: u8,
    /// The authority that may freeze accounts of the mint.
    pub freeze_authority: Option<Address>,
}

/// What an account stores.
#[derive(Clone, Debug, PartialEq, Eq)]
pub enum AccountData {
    Empty,
    Token(TokenAccount),
    Mint(Mint),
    Charter(Charter),
    Treasury(CharterTreasury),
    Listing(Listing),
    Receipt(Receipt),
}

/// An account: its native balance and what it stores.
#[derive(Clone, Debug, PartialEq, Eq)]
pub struct Account {
    pub lamports: u64,
    pub data: AccountData,
}

impl AccountData {
    /// A copy of the data.
    pub fn duplicate(&self) -> (d: AccountData)
        ensures
            d == *self,
    {
        match self {
            AccountData::Empty => AccountData::Empty,
            AccountData::Token(t) => AccountData::Token(*t),
            AccountData::Mint(m) => AccountData::Mint(*m),
            AccountData::Charter(c) => AccountData::Charter(c.duplicate()),
            AccountData::Treasury(t) => AccountData::Treasury(*t),
            AccountData::Listing(l) => AccountData::Listing(l.duplicate()),
            AccountData::Receipt(r) => AccountData::Receipt(*r),
        }
    }
}

impl Account {
    /// The account at an address that nothing was ever stored at, and what
    /// is left when an account is closed: no balance and no data.
    pub open spec fn vacant() -> Account {
        Account { lamports: 0, data: AccountData::Empty }
    }

    /// A copy of the account.
    pub fn duplicate(&self) -> (a: Account)
        ensures
            a == *self,
    {
        Account { lamports: self.lamports, data: self.data.duplicate() }
    }
}

/// The accounts of a ledger, by address. Every address has an account; most
/// are vacant.
pub type State = Map<Address, Account>;

/// The ledger on which nothing was stored yet.
pub open spec fn genesis() -> State {
    Map::total(|a: Address| Account::vacant())
}

/// The token account stored at an address, if one is.
pub open spec fn token_at(s: State, a: Address) -> Option<TokenAccount> {
    match s[a].data {
        AccountData::Token(t) => Some(t),
        _ => None,
    }
}

/// The mint stored at an address, if one is.
pub open spec fn mint_at(s: State, a: Address) -> Option<Mint> {
    match s[a].data {
        AccountData::Mint(m) => Some(m),
        _ => None,
    }
}

/// The charter stored at an address, if one is.
pub open spec fn charter_at(s: State, a: Address) -> Option<Charter> {
    match s[a].data {
        AccountData::Charter(c) => Some(c),
        _ => None,
    }
}

/// The treasury stored at an address, if one is.
pub open spec fn treasury_at(s: State, a: Address) -> Option<CharterTreasury> {
    match s[a].data {
        AccountData::Treasury(t) => Some(t),
        _ => None,
    }
}

/// The listing stored at an address, if one is.
pub open spec fn listing_at(s: State, a: Address) -> Option<Listing> {
    match s[a].data {
        AccountData::Listing(l) => Some(l),
        _ => None,
    }
}

/// The receipt stored at an address, if one is.
pub open spec fn receipt_at(s: State, a: Address) -> Option<Receipt> {
    match s[a].data {
        AccountData::Receipt(r) => Some(r),
        _ => None,
    }
}

/// The state in which the account at `a` stores `data` and keeps its balance.
pub open spec fn with_data(s: State, a: Address, data: AccountData) -> State {
    s.insert(a, Account { lamports: s[a].lamports, data })
}

/// The state in which the account at `a` has the balance `lamports` and
/// keeps what it stores.
pub open spec fn with_lamports(s: State, a: Address, lamports: u64) -> State {
    s.insert(a, Account { lamports, data: s[a].data })
}

/// The account of one address.
struct Entry {
    address: Address,
    account: Account,
}

/// The state that a list of entries stands for. Where an address occurs
/// more than once, its last entry is the one that counts.
spec fn state_of(entries: Seq<Entry>) -> State
    decreases entries.len(),
{
    if entries.len() == 0 {
        genesis()
    } else {
        state_of(entries.drop_last()).insert(entries.last().address, entries.last().account)
    }
}

/// In a list with no entry for `a` from `from` on, the account at `a` is
/// the one that the entries before `from` give it.
proof fn lemma_state_of_skips(entries: Seq<Entry>, a: Address, from: int)
    requires
        0 <= from <= entries.len(),
        forall|j: int| from <= j < entries.len() ==> entries[j].address != a,
    ensures
        state_of(entries)[a] == state_of(entries.take(from))[a],
    decreases entries.len() - from,
{
    if from == entries.len() {
        assert(entries.take(from) =~= entries);
    } else {
        let shorter = entries.drop_last();
        lemma_state_of_skips(shorter, a, from);
        assert(shorter.take(from) =~= entries.take(from));
    }
}

/// Replacing the entry that counts for an address replaces the account at
/// that address and no other.
proof fn lemma_state_of_update(entries: Seq<Entry>, i: int, e: Entry)
    requires
        0 <= i < entries.len(),
        entries[i].address == e.address,
        forall|j: int| i < j < entries.len() ==> entries[j].address != e.address,
    ensures
        state_of(entries.update(i, e)) == state_of(entries).insert(e.address, e.account),
    decreases entries.len(),
{
    let shorter = entries.drop_last();
    if i == entries.len() - 1 {
        assert(entries.update(i, e).drop_last() =~= shorter);
        assert(state_of(shorter).insert(e.address, entries.last().account).insert(
            e.address,
            e.account,
        ) =~= state_of(shorter).insert(e.address, e.account));
    } else {
        let last = entries.last();
        lemma_state_of_update(shorter, i, e);
        assert(entries.update(i, e).drop_last() =~= shorter.update(i, e));
        assert(state_of(shorter).insert(e.address, e.account).insert(last.address, last.account)
            =~= state_of(shorter).insert(last.address, last.account).insert(
            e.address,
            e.account,
        ));
    }
}

/// A model of the ledger: the accounts that the program's transitions read
/// and write, each address with its account.
pub struct Ledger {
    entries: Vec<Entry>,
}

impl View for Ledger {
    type V = State;

    closed spec fn view(&self) -> State {
        state_of(self.entries@)
    }
}

impl Ledger {
    /// The ledger on which nothing was stored yet.
    pub fn new() -> (l: Ledger)
        ensures
            l@ == genesis(),
    {
        Ledger { entries: Vec::new() }
    }

    /// The place of the entry that counts for `a`.
    fn position(&self, a: &Address) -> (p: Option<usize>)
        ensures
            match p {
                Some(i) => {
                    &&& i < self.entries@.len()
                    &&& self.entries@[i as int].address == *a
                    &&& self.entries@[i as int].account == self@[*a]
                    &&& forall|j: int|
                        i < j < self.entries@.len() ==> self.entries@[j].address != *a
                },
                None => self@[*a] == Account::vacant(),
            },
    {
        let mut i: usize = self.entries.len();
        while i > 0
            invariant
                i <= self.entries@.len(),
                forall|j: int| i <= j < self.entries@.len() ==> self.entries@[j].address != *a,
            decreases i,
        {
            i -= 1;
            if self.entries[i].address == *a {
                proof {
                    lemma_state_of_skips(self.entries@, *a, i + 1);
                    assert(self.entries@.take(i + 1).drop_last() =~= self.entries@.take(i as int));
                }
                return Some(i);
            }
        }
        proof {
            lemma_state_of_skips(self.entries@, *a, 0);
        }
        None
    }

    /// Stores `account` at `a`, in place of what was there.
    pub fn store(&mut self, a: Address, account: Account)
        ensures
            final(self)@ == old(self)@.insert(a, account),
    {
        match self.position(&a) {
            Some(i) => {
                proof {
                    lemma_state_of_update(self.entries@, i as int, Entry { address: a, account });
                }
                self.entries.set(i, Entry { address: a, account });
            },
            None => {
                self.entries.push(Entry { address: a, account });
                assert(self.entries@.drop_last() =~= old(self).entries@);
            },
        }
    }

    /// The native balance of the account at `a`.
    pub fn lamports(&self, a: &Address) -> (l: u64)
        ensures
            l == self@[*a].lamports,
    {
        match self.position(a) {
            Some(i) => self.entries[i].account.lamports,
            None => 0,
        }
    }

    /// What the account at `a` stores.
    pub fn data(&self, a: &Address) -> (d: AccountData)
        ensures
            d == self@[*a].data,
    {
        match self.position(a) {
            Some(i) => self.entries[i].account.data.duplicate(),
            None => AccountData::Empty,
        }
    }

    /// The token account stored at `a`, if one is.
    pub fn token_account(&self, a: &Address) -> (t: Option<TokenAccount>)
        ensures
            t == token_at(self@, *a),
    {
        match self.position(a) {
            Some(i) => match &self.entries[i].account.data {
                AccountData::Token(t) => Some(*t),
                _ => None,
            },
            None => None,
        }
    }

    /// The mint stored at `a`, if one is.
    pub fn mint(&self, a: &Address) -> (m: Option<Mint>)
        ensures
            m == mint_at(self@, *a),
    {
        match self.position(a) {
            Some(i) => match &self.entries[i].account.data {
                AccountData::Mint(m) => Some(*m),
                _ => None,
            },
            None => None,
        }
    }

    /// The receipt stored at `a`, if one is.
    pub fn receipt(&self, a: &Address) -> (r: Option<Receipt>)
        ensures
            r == receipt_at(self@, *a),
    {
        match self.position(a) {
            Some(i) => match &self.entries[i].account.data {
                AccountData::Receipt(r) => Some(*r),
                _ => None,
            },
            None => None,
        }
    }

    /// The treasury stored at `a`, if one is.
    pub fn treasury(&self, a: &Address) -> (t: Option<CharterTreasury>)
        ensures
            t == treasury_at(self@, *a),
    {
        match self.position(a) {
            Some(i) => match &self.entries[i].account.data {
                AccountData::Treasury(t) => Some(*t),
                _ => None,
            },
            None => None,
        }
    }

    /// The listing stored at `a`, if one is.
    pub fn listing(&self, a: &Address) -> (l: Option<Listing>)
        ensures
            l == listing_at(self@, *a),
    {
        match self.position(a) {
            Some(i) => match &self.entries[i].account.data {
                AccountData::Listing(l) => Some(l.duplicate()),
                _ => None,
            },
            None => None,
        }
    }

    /// The charter stored at `a`, if one is.
    pub fn charter(&self, a: &Address) -> (c: Option<Charter>)
        ensures
            c == charter_at(self@, *a),
    {
        match self.position(a) {
            Some(i) => match &self.entries[i].account.data {
                AccountData::Charter(c) => Some(c.duplicate()),
                _ => None,
            },
            None => None,
        }
    }

    /// Whether the account at `a` stores nothing.
    pub fn is_empty(&self, a: &Address) -> (b: bool)
        ensures
            b == (self@[*a].data is Empty),
    {
        match self.position(a) {
            Some(i) => match &self.entries[i].account.data {
                AccountData::Empty => true,
                _ => false,
            },
            None => true,
        }
    }

    /// Stores `data` at `a`; the account keeps its balance.
    pub fn set_data(&mut self, a: Address, data: AccountData)
        ensures
            final(self)@ == with_data(old(self)@, a, data),
    {
        let lamports = self.lamports(&a);
        self.store(a, Account { lamports, data });
    }

    /// Gives the account at `a` the balance `lamports`; it keeps what it stores.
    pub fn set_lamports(&mut self, a: Address, lamports: u64)
        ensures
            final(self)@ == with_lamports(old(self)@, a, lamports),
    {
        let data = self.data(&a);
        self.store(a, Account { lamports, data });
    }

    /// A copy of the ledger, on which a transition can be tried.
    pub fn snapshot(&self) -> (l: Ledger)
        ensures
            l@ == self@,
    {
        let mut entries: Vec<Entry> = Vec::new();
        let mut i: usize = 0;
        while i < self.entries.len()
            invariant
                i <= self.entries@.len(),
                entries@ == self.entries@.take(i as int),
            decreases self.entries@.len() - i,
        {
            let e = &self.entries[i];
            entries.push(Entry { address: e.address, account: e.account.duplicate() });
            i += 1;
            assert(entries@ =~= self.entries@.take(i as int));
        }
        assert(entries@ =~= self.entries@);
        Ledger { entries }
    }
}

/// Whether `r` and the ledger afterwards are what `expected` says: on success
/// the ledger is in the expected state, and a ledger that refused is as it was.
pub open spec fn outcome<E>(
    before: State,
    after: State,
    r: Result<(), E>,
    expected: Result<State, E>,
) -> bool {
    match r {
        Ok(()) => expected == Ok::<State, E>(after),
        Err(e) => expected == Err::<State, E>(e) && after == before,
    }
}

/// Moving `amount` tokens from one account to another of the same mint, on
/// the word of the owner of the first.
pub open spec fn spec_transfer(
    s: State,
    from: Address,
    to: Address,
    authority: Address,
    amount: u64,
) -> Result<State, LedgerError> {
    match (token_at(s, from), token_at(s, to)) {
        (Some(src), Some(dst)) => {
            if src.mint != dst.mint {
                Err(LedgerError::MintMismatch)
            } else if src.owner != authority {
                Err(LedgerError::InvalidAuthority)
            } else if src.is_frozen {
                Err(LedgerError::AccountFrozen)
            } else if src.amount < amount {
                Err(LedgerError::InsufficientFunds)
            } else if from == to {
                Ok(s)
            } else if dst.amount + amount > u64::MAX {
                Err(LedgerError::Overflow)
            } else {
                Ok(
                    with_data(
                        with_data(
                            s,
                            from,
                            AccountData::Token(
                                TokenAccount { amount: (src.amount - amount) as u64, ..src },
                            ),
                        ),
                        to,
                        AccountData::Token(
                            TokenAccount { amount: (dst.amount + amount) as u64, ..dst },
                        ),
                    ),
                )
            }
        },
        _ => Err(LedgerError::AccountNotFound),
    }
}

/// Making `amount` new tokens of a mint in an account, on the word of the
/// mint's authority.
pub open spec fn spec_mint_to(
    s: State,
    mint: Address,
    to: Address,
    authority: Address,
    amount: u64,
) -> Result<State, LedgerError> {
    match (mint_at(s, mint), token_at(s, to)) {
        (Some(m), Some(dst)) => {
            if dst.mint != mint {
                Err(LedgerError::MintMismatch)
            } else if m.mint_authority != Some(authority) {
                Err(LedgerError::InvalidAuthority)
            } else if m.supply + amount > u64::MAX || dst.amount + amount > u64::MAX {
                Err(LedgerError::Overflow)
            } else {
                Ok(
                    with_data(
                        with_data(
                            s,
                            mint,
                            AccountData::Mint(Mint { supply: (m.supply + amount) as u64, ..m }),
                        ),
                        to,
                        AccountData::Token(
                            TokenAccount { amount: (dst.amount + amount) as u64, ..dst },
                        ),
                    ),
                )
            }
        },
        _ => Err(LedgerError::AccountNotFound),
    }
}

/// Freezing an account of a mint, on the word of the mint's freeze authority.
pub open spec fn spec_freeze(
    s: State,
    mint: Address,
    account: Address,
    authority: Address,
) -> Result<State, LedgerError> {
    match (mint_at(s, mint), token_at(s, account)) {
        (Some(m), Some(t)) => {
            if t.mint != mint {
                Err(LedgerError::MintMismatch)
            } else if m.freeze_authority != Some(authority) {
                Err(LedgerError::InvalidAuthority)
            } else {
                Ok(with_data(s, account, AccountData::Token(TokenAccount { is_frozen: true, ..t })))
            }
        },
        _ => Err(LedgerError::AccountNotFound),
    }
}

/// Destroying `amount` tokens of a mint in an account, frozen or not, on the
/// word of the mint's authority.
pub open spec fn spec_burn(
    s: State,
    mint: Address,
    account: Address,
    authority: Address,
    amount: u64,
) -> Result<State, LedgerError> {
    match (mint_at(s, mint), token_at(s, account)) {
        (Some(m), Some(t)) => {
            if t.mint != mint {
                Err(LedgerError::MintMismatch)
            } else if m.mint_authority != Some(authority) {
                Err(LedgerError::InvalidAuthority)
            } else if t.amount < amount || m.supply < amount {
                Err(LedgerError::InsufficientFunds)
            } else {
                Ok(
                    with_data(
                        with_data(
                            s,
                            mint,
                            AccountData::Mint(Mint { supply: (m.supply - amount) as u64, ..m }),
                        ),
                        account,
                        AccountData::Token(
                            TokenAccount { amount: (t.amount - amount) as u64, ..t },
                        ),
                    ),
                )
            }
        },
        _ => Err(LedgerError::AccountNotFound),
    }
}

/// Adding `amount` to the native balance of an account.
pub open spec fn spec_credit(s: State, a: Address, amount: u64) -> Result<State, LedgerError> {
    if s[a].lamports + amount > u64::MAX {
        Err(LedgerError::Overflow)
    } else {
        Ok(with_lamports(s, a, (s[a].lamports + amount) as u64))
    }
}

/// Taking `amount` from the native balance of an account.
pub open spec fn spec_debit(s: State, a: Address, amount: u64) -> Result<State, LedgerError> {
    if s[a].lamports < amount {
        Err(LedgerError::InsufficientFunds)
    } else {
        Ok(with_lamports(s, a, (s[a].lamports - amount) as u64))
    }
}

/// Closing an account: its whole native balance goes to `destination`, and
/// the account is left vacant.
pub open spec fn spec_close_native(
    s: State,
    source: Address,
    destination: Address,
) -> Result<State, LedgerError> {
    match spec_credit(s, destination, s[source].lamports) {
        Ok(credited) => Ok(credited.insert(source, Account::vacant())),
        Err(e) => Err(e),
    }
}

/// Closing a token account with no tokens left, on the word of its owner:
/// its native balance goes to `destination`, and the account is left vacant.
pub open spec fn spec_close_token(
    s: State,
    account: Address,
    destination: Address,
    authority: Address,
) -> Result<State, LedgerError> {
    match token_at(s, account) {
        Some(t) => {
            if t.owner != authority {
                Err(LedgerError::InvalidAuthority)
            } else if t.amount != 0 {
                Err(LedgerError::BalanceNotZero)
            } else {
                spec_close_native(s, account, destination)
            }
        },
        None => Err(LedgerError::AccountNotFound),
    }
}

/// Opening a token account of a mint, with no tokens in it, at an address
/// that stores nothing yet.
pub open spec fn spec_open_token(
    s: State,
    account: Address,
    mint: Address,
    owner: Address,
) -> Result<State, LedgerError> {
    if !(s[account].data is Empty) {
        Err(LedgerError::AccountInUse)
    } else if mint_at(s, mint) is None {
        Err(LedgerError::AccountNotFound)
    } else {
        Ok(
            with_data(
                s,
                account,
                AccountData::Token(TokenAccount { mint, owner, amount: 0, is_frozen: false }),
            ),
        )
    }
}

/// Opening a mint with no tokens in existence, at an address that stores
/// nothing yet; one authority both mints and freezes.
pub open spec fn spec_open_mint(
    s: State,
    mint: Address,
    decimals: u8,
    authority: Address,
) -> Result<State, LedgerError> {
    if !(s[mint].data is Empty) {
        Err(LedgerError::AccountInUse)
    } else {
        Ok(
            with_data(
                s,
                mint,
                AccountData::Mint(
                    Mint {
                        mint_authority: Some(authority),
                        supply: 0,
                        decimals,
                        freeze_authority: Some(authority),
                    },
                ),
            ),
        )
    }
}

/// Storing a new record at an address that stores nothing yet.
pub open spec fn spec_open(s: State, a: Address, data: AccountData) -> Result<State, LedgerError> {
    if !(s[a].data is Empty) {
        Err(LedgerError::AccountInUse)
    } else {
        Ok(with_data(s, a, data))
    }
}

impl Ledger {
    /// Stores a new record at `a`. The ledger refuses where `a` stores
    /// something already.
    pub fn open(&mut self, a: &Address, data: AccountData) -> (r: Result<(), LedgerError>)
        ensures
            outcome(old(self)@, final(self)@, r, spec_open(old(self)@, *a, data)),
    {
        if !self.is_empty(a) {
            return Err(LedgerError::AccountInUse);
        }
        self.set_data(*a, data);
        Ok(())
    }

    /// Moves `amount` tokens from `from` to `to`. The ledger refuses where
    /// either is no token account, the two are of different mints,
    /// `authority` is not the owner of `from`, `from` is frozen or holds less
    /// than `amount`, or `to` would hold more than 64 bits can say.
    pub fn transfer(&mut self, from: &Address, to: &Address, authority: &Address, amount: u64) -> (r:
        Result<(), LedgerError>)
        ensures
            outcome(
                old(self)@,
                final(self)@,
                r,
                spec_transfer(old(self)@, *from, *to, *authority, amount),
            ),
    {
        let (src, dst) = match (self.token_account(from), self.token_account(to)) {
            (Some(src), Some(dst)) => (src, dst),
            _ => { return Err(LedgerError::AccountNotFound); },
        };
        if src.mint != dst.mint {
            return Err(LedgerError::MintMismatch);
        }
        if src.owner != *authority {
            return Err(LedgerError::InvalidAuthority);
        }
        if src.is_frozen {
            return Err(LedgerError::AccountFrozen);
        }
        if src.amount < amount {
            return Err(LedgerError::InsufficientFunds);
        }
        if *from == *to {
            return Ok(());
        }
        let credited = match dst.amount.checked_add(amount) {
            Some(sum) => sum,
            None => { return Err(LedgerError::Overflow); },
        };
        self.set_data(*from, AccountData::Token(TokenAccount { amount: src.amount - amount, ..src }));
        self.set_data(*to, AccountData::Token(TokenAccount { amount: credited, ..dst }));
        Ok(())
    }

    /// Makes `amount` new tokens of `mint` in `to`. The ledger refuses where
    /// `mint` is no mint or `to` no token account, `to` is of another mint,
    /// `authority` is not the mint's authority, or the supply or the balance
    /// would exceed what 64 bits can say.
    pub fn mint_to(&mut self, mint: &Address, to: &Address, authority: &Address, amount: u64) -> (r:
        Result<(), LedgerError>)
        ensures
            outcome(
                old(self)@,
                final(self)@,
                r,
                spec_mint_to(old(self)@, *mint, *to, *authority, amount),
            ),
    {
        let (m, dst) = match (self.mint(mint), self.token_account(to)) {
            (Some(m), Some(dst)) => (m, dst),
            _ => { return Err(LedgerError::AccountNotFound); },
        };
        if dst.mint != *mint {
            return Err(LedgerError::MintMismatch);
        }
        if !is_same(&m.mint_authority, authority) {
            return Err(LedgerError::InvalidAuthority);
        }
        let (supply, balance) = match (m.supply.checked_add(amount), dst.amount.checked_add(amount)) {
            (Some(supply), Some(balance)) => (supply, balance),
            _ => { return Err(LedgerError::Overflow); },
        };
        self.set_data(*mint, AccountData::Mint(Mint { supply, ..m }));
        self.set_data(*to, AccountData::Token(TokenAccount { amount: balance, ..dst }));
        Ok(())
    }

    /// Freezes `account`. The ledger refuses where `mint` is no mint or
    /// `account` no token account, `account` is of another mint, or
    /// `authority` is not the mint's freeze authority.
    pub fn freeze_account(&mut self, mint: &Address, account: &Address, authority: &Address) -> (r:
        Result<(), LedgerError>)
        ensures
            outcome(
                old(self)@,
                final(self)@,
                r,
                spec_freeze(old(self)@, *mint, *account, *authority),
            ),
    {
        let (m, t) = match (self.mint(mint), self.token_account(account)) {
            (Some(m), Some(t)) => (m, t),
            _ => { return Err(LedgerError::AccountNotFound); },
        };
        if t.mint != *mint {
            return Err(LedgerError::MintMismatch);
        }
        if !is_same(&m.freeze_authority, authority) {
            return Err(LedgerError::InvalidAuthority);
        }
        self.set_data(*account, AccountData::Token(TokenAccount { is_frozen: true, ..t }));
        Ok(())
    }

    /// Destroys `amount` tokens of `mint` in `account`, frozen or not. The
    /// ledger refuses where `mint` is no mint or `account` no token account,
    /// `account` is of another mint, `authority` is not the mint's
    /// authority, or the account or the supply holds less than `amount`.
    pub fn burn(&mut self, mint: &Address, account: &Address, authority: &Address, amount: u64) -> (r:
        Result<(), LedgerError>)
        ensures
            outcome(
                old(self)@,
                final(self)@,
                r,
                spec_burn(old(self)@, *mint, *account, *authority, amount),
            ),
    {
        let (m, t) = match (self.mint(mint), self.token_account(account)) {
            (Some(m), Some(t)) => (m, t),
            _ => { return Err(LedgerError::AccountNotFound); },
        };
        if t.mint != *mint {
            return Err(LedgerError::MintMismatch);
        }
        if !is_same(&m.mint_authority, authority) {
            return Err(LedgerError::InvalidAuthority);
        }
        if t.amount < amount || m.supply < amount {
            return Err(LedgerError::InsufficientFunds);
        }
        self.set_data(*mint, AccountData::Mint(Mint { supply: m.supply - amount, ..m }));
        self.set_data(*account, AccountData::Token(TokenAccount { amount: t.amount - amount, ..t }));
        Ok(())
    }

    /// Adds `amount` to the native balance of `a`, unless that would exceed
    /// what 64 bits can say.
    pub fn credit(&mut self, a: &Address, amount: u64) -> (r: Result<(), LedgerError>)
        ensures
            outcome(old(self)@, final(self)@, r, spec_credit(old(self)@, *a, amount)),
    {
        match self.lamports(a).checked_add(amount) {
            Some(sum) => {
                self.set_lamports(*a, sum);
                Ok(())
            },
            None => Err(LedgerError::Overflow),
        }
    }

    /// Takes `amount` from the native balance of `a`, unless it holds less.
    pub fn debit(&mut self, a: &Address, amount: u64) -> (r: Result<(), LedgerError>)
        ensures
            outcome(old(self)@, final(self)@, r, spec_debit(old(self)@, *a, amount)),
    {
        let held = self.lamports(a);
        if held < amount {
            return Err(LedgerError::InsufficientFunds);
        }
        self.set_lamports(*a, held - amount);
        Ok(())
    }

    /// Closes the account at `source`: its native balance goes to
    /// `destination` and nothing is left of it. The ledger refuses where the
    /// balance of `destination` would exceed what 64 bits can say.
    pub fn close_native(&mut self, source: &Address, destination: &Address) -> (r: Result<
        (),
        LedgerError,
    >)
        ensures
            outcome(
                old(self)@,
                final(self)@,
                r,
                spec_close_native(old(self)@, *source, *destination),
            ),
    {
        let held = self.lamports(source);
        match self.credit(destination, held) {
            Ok(()) => {
                self.store(*source, Account { lamports: 0, data: AccountData::Empty });
                Ok(())
            },
            Err(e) => Err(e),
        }
    }

    /// Closes the token account at `account`, which must hold no tokens: its
    /// native balance goes to `destination`. The ledger refuses where
    /// `account` is no token account, `authority` is not its owner, tokens
    /// are left in it, or the balance of `destination` would exceed what 64
    /// bits can say.
    pub fn close_token(&mut self, account: &Address, destination: &Address, authority: &Address) -> (r:
        Result<(), LedgerError>)
        ensures
            outcome(
                old(self)@,
                final(self)@,
                r,
                spec_close_token(old(self)@, *account, *destination, *authority),
            ),
    {
        let t = match self.token_account(account) {
            Some(t) => t,
            None => { return Err(LedgerError::AccountNotFound); },
        };
        if t.owner != *authority {
            return Err(LedgerError::InvalidAuthority);
        }
        if t.amount != 0 {
            return Err(LedgerError::BalanceNotZero);
        }
        self.close_native(account, destination)
    }

    /// Opens a token account of `mint` at `account`, owned by `owner`, with
    /// no tokens in it. The ledger refuses where `account` stores something
    /// already or `mint` is no mint.
    pub fn open_token(&mut self, account: &Address, mint: &Address, owner: &Address) -> (r: Result<
        (),
        LedgerError,
    >)
        ensures
            outcome(
                old(self)@,
                final(self)@,
                r,
                spec_open_token(old(self)@, *account, *mint, *owner),
            ),
    {
        if !self.is_empty(account) {
            return Err(LedgerError::AccountInUse);
        }
        if self.mint(mint).is_none() {
            return Err(LedgerError::AccountNotFound);
        }
        self.set_data(
            *account,
            AccountData::Token(
                TokenAccount { mint: *mint, owner: *owner, amount: 0, is_frozen: false },
            ),
        );
        Ok(())
    }

    /// Opens a mint at `mint` with no tokens in existence, for which
    /// `authority` both mints and freezes. The ledger refuses where `mint`
    /// stores something already.
    pub fn open_mint(&mut self, mint: &Address, decimals: u8, authority: &Address) -> (r: Result<
        (),
        LedgerError,
    >)
        ensures
            outcome(
                old(self)@,
                final(self)@,
                r,
                spec_open_mint(old(self)@, *mint, decimals, *authority),
            ),
    {
        if !self.is_empty(mint) {
            return Err(LedgerError::AccountInUse);
        }
        self.set_data(
            *mint,
            AccountData::Mint(
                Mint {
                    mint_authority: Some(*authority),
                    supply: 0,
                    decimals,
                    freeze_authority: Some(*authority),
                },
            ),
        );
        Ok(())
    }
}

/// Whether an optional address is the given one.
pub fn is_same(held: &Option<Address>, a: &Address) -> (b: bool)
    ensures
        b == (*held == Some(*a)),
{
    match held {
        Some(h) => *h == *a,
        None => false,
    }
}

} // verus!
