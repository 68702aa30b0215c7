use vstd::prelude::*;
use crate::bytes::bytes32_eq;
use crate::primitives::coin::{sat_add, sat_sub};
use crate::primitives::{AccountId, CoinAmount};

verus! {

/// An account's coins.
///
/// The fields are private so that coins enter an account only through
/// `grant_mintable`, which the claim executor calls, and leave through `burn`.
#[derive(Debug, Clone, Copy)]
pub struct Balance {
    account_id: AccountId,
    maze_coins: CoinAmount,
    mintable_coins: CoinAmount,
    locked_coins: CoinAmount,
}

impl Balance {
    pub closed spec fn spec_account_id(&self) -> AccountId {
        self.account_id
    }

    pub closed spec fn spec_maze(&self) -> u64 {
        self.maze_coins.0
    }

    pub closed spec fn spec_mintable(&self) -> u64 {
        self.mintable_coins.0
    }

    pub closed spec fn spec_locked(&self) -> u64 {
        self.locked_coins.0
    }

    /// The account's coins of all three kinds, counted without a cap.
    pub open spec fn holdings(&self) -> int {
        self.spec_maze() + self.spec_mintable() + self.spec_locked()
    }

    pub fn new(account_id: AccountId) -> (res: Self)
        ensures
            res.spec_account_id() == account_id,
            res.spec_maze() == 0,
            res.spec_mintable() == 0,
            res.spec_locked() == 0,
    {
        Balance {
            account_id,
            maze_coins: CoinAmount::new(0),
            mintable_coins: CoinAmount::new(0),
            locked_coins: CoinAmount::new(0),
        }
    }

    pub fn account_id(&self) -> (res: AccountId)
        ensures
            res == self.spec_account_id(),
    {
        self.account_id
    }

    pub fn maze_coins(&self) -> (res: CoinAmount)
        ensures
            res.0 == self.spec_maze(),
    {
        self.maze_coins
    }

    pub fn mintable_coins(&self) -> (res: CoinAmount)
        ensures
            res.0 == self.spec_mintable(),
    {
        self.mintable_coins
    }

    pub fn locked_coins(&self) -> (res: CoinAmount)
        ensures
            res.0 == self.spec_locked(),
    {
        self.locked_coins
    }

    /// The sum of the three kinds, each addition capped at `u64::MAX`.
    pub fn total(&self) -> (res: CoinAmount)
        ensures
            res.0 == sat_add(sat_add(self.spec_maze(), self.spec_mintable()), self.spec_locked()),
            self.holdings() <= u64::MAX ==> res.0 == self.holdings(),
    {
        self.maze_coins.saturating_add(self.mintable_coins).saturating_add(self.locked_coins)
    }

    /// Adds minted coins (capped at `u64::MAX`). Only the claim executor calls this.
    pub fn grant_mintable(&mut self, amount: CoinAmount)
        ensures
            final(self).spec_mintable() == sat_add(old(self).spec_mintable(), amount.0),
            final(self).spec_account_id() == old(self).spec_account_id(),
            final(self).spec_maze() == old(self).spec_maze(),
            final(self).spec_locked() == old(self).spec_locked(),
    {
        self.mintable_coins = self.mintable_coins.saturating_add(amount);
    }

    /// Burns locked coins (floored at zero).
    pub fn burn(&mut self, amount: CoinAmount)
        ensures
            final(self).spec_locked() == sat_sub(old(self).spec_locked(), amount.0),
            final(self).spec_account_id() == old(self).spec_account_id(),
            final(self).spec_maze() == old(self).spec_maze(),
            final(self).spec_mintable() == old(self).spec_mintable(),
    {
        self.locked_coins = self.locked_coins.saturating_sub(amount);
    }
}

/// `s[i]` is the balance of the account with bytes `id`.
pub open spec fn holds_account(s: Seq<Balance>, id: Seq<u8>, i: int) -> bool {
    0 <= i < s.len() && s[i].spec_account_id().0@ == id
}

/// The coins held over all accounts.
pub open spec fn total_holdings(s: Seq<Balance>) -> int
    decreases s.len(),
{
    if s.len() == 0 {
        0
    } else {
        total_holdings(s.drop_last()) + s.last().holdings()
    }
}

/// `after` is `before` with `amount` more minted coins, capped at `u64::MAX`.
pub open spec fn balance_granted(before: Balance, amount: u64, after: Balance) -> bool {
    &&& after.spec_account_id() == before.spec_account_id()
    &&& after.spec_maze() == before.spec_maze()
    &&& after.spec_locked() == before.spec_locked()
    &&& after.spec_mintable() == sat_add(before.spec_mintable(), amount)
}

/// `after` is `before` once `id` has been granted `amount` minted coins:
/// its existing balance is raised, or an empty balance for it is added and
/// raised.
pub open spec fn balances_granted(before: Seq<Balance>, id: AccountId, amount: u64, after: Seq<Balance>) -> bool {
    if exists|i: int| holds_account(before, id.0@, i) {
        let i = choose|i: int| holds_account(before, id.0@, i);
        &&& after.len() == before.len()
        &&& forall|j: int| 0 <= j < before.len() && j != i ==> after[j] == before[j]
        &&& balance_granted(before[i], amount, after[i])
    } else {
        &&& after.len() == before.len() + 1
        &&& forall|j: int| 0 <= j < before.len() ==> after[j] == before[j]
        &&& after.last().spec_account_id() == id
        &&& after.last().spec_maze() == 0
        &&& after.last().spec_locked() == 0
        &&& after.last().spec_mintable() == amount
    }
}

/// The minted coins `id` holds in `s` (0 without a balance).
pub open spec fn minted_of(s: Seq<Balance>, id: AccountId) -> u64 {
    if exists|i: int| holds_account(s, id.0@, i) {
        s[choose|i: int| holds_account(s, id.0@, i)].spec_mintable()
    } else {
        0
    }
}

/// After a grant, the account's balance is found, and holds the granted
/// coins on top of what it held before.
pub proof fn lemma_granted_balance_is_found(before: Seq<Balance>, id: AccountId, amount: u64, after: Seq<Balance>)
    requires
        balances_granted(before, id, amount, after),
        balances_unique(before),
        balances_unique(after),
    ensures
        exists|i: int| holds_account(after, id.0@, i),
        minted_of(after, id) == sat_add(minted_of(before, id), amount),
{
    if exists|i: int| holds_account(before, id.0@, i) {
        let i = choose|i: int| holds_account(before, id.0@, i);
        assert(holds_account(after, id.0@, i));
        let j = choose|j: int| holds_account(after, id.0@, j);
        assert(after[j].spec_account_id().0@ == after[i].spec_account_id().0@);
    } else {
        let n = after.len() - 1;
        assert(after[n] == after.last());
        assert(holds_account(after, id.0@, n));
        let j = choose|j: int| holds_account(after, id.0@, j);
        assert(after[j].spec_account_id().0@ == after[n].spec_account_id().0@);
    }
}

/// No account appears twice in `s`.
pub open spec fn balances_unique(s: Seq<Balance>) -> bool {
    forall|i: int, j: int|
        0 <= i < s.len() && 0 <= j < s.len() && #[trigger] s[i].spec_account_id().0@
            == #[trigger] s[j].spec_account_id().0@ ==> i == j
}

pub proof fn lemma_total_holdings_nonneg(s: Seq<Balance>)
    ensures
        total_holdings(s) >= 0,
        forall|i: int| 0 <= i < s.len() ==> #[trigger] s[i].holdings() <= total_holdings(s),
    decreases s.len(),
{
    if s.len() > 0 {
        lemma_total_holdings_nonneg(s.drop_last());
        assert forall|i: int| 0 <= i < s.len() implies #[trigger] s[i].holdings() <= total_holdings(s) by {
            if i < s.len() - 1 {
                assert(s.drop_last()[i] == s[i]);
            }
        }
    }
}

pub proof fn lemma_total_holdings_update(s: Seq<Balance>, i: int, b: Balance)
    requires
        0 <= i < s.len(),
    ensures
        total_holdings(s.update(i, b)) == total_holdings(s) - s[i].holdings() + b.holdings(),
    decreases s.len(),
{
    if i == s.len() - 1 {
        assert(s.update(i, b).drop_last() =~= s.drop_last());
    } else {
        lemma_total_holdings_update(s.drop_last(), i, b);
        assert(s.update(i, b).drop_last() =~= s.drop_last().update(i, b));
    }
}

pub proof fn lemma_total_holdings_push(s: Seq<Balance>, b: Balance)
    ensures
        total_holdings(s.push(b)) == total_holdings(s) + b.holdings(),
{
    assert(s.push(b).drop_last() =~= s);
}

/// Granting `amount` to one account raises the coins held over all accounts
/// by exactly `amount`, when the account's minted coins do not hit the cap.
pub proof fn lemma_grant_adds_to_holdings(before: Seq<Balance>, id: AccountId, amount: u64, after: Seq<Balance>)
    requires
        balances_granted(before, id, amount, after),
        total_holdings(before) + amount <= u64::MAX,
    ensures
        total_holdings(after) == total_holdings(before) + amount,
{
    lemma_total_holdings_nonneg(before);
    if exists|i: int| holds_account(before, id.0@, i) {
        let i = choose|i: int| holds_account(before, id.0@, i);
        assert(before[i].holdings() <= total_holdings(before));
        assert(after =~= before.update(i, after[i]));
        lemma_total_holdings_update(before, i, after[i]);
    } else {
        assert(after =~= before.push(after.last()));
        lemma_total_holdings_push(before, after.last());
    }
}

/// All balances of the chain, at most one per account.
#[derive(Debug, Clone)]
pub struct Balances {
    accounts: Vec<Balance>,
}

impl View for Balances {
    type V = Seq<Balance>;

    closed spec fn view(&self) -> Seq<Balance> {
        self.accounts@
    }
}

impl Balances {
    /// No account appears twice.
    pub open spec fn wf(&self) -> bool {
        balances_unique(self@)
    }

    pub fn new() -> (res: Self)
        ensures
            res@ == Seq::<Balance>::empty(),
            res.wf(),
    {
        Balances { accounts: Vec::new() }
    }

    /// The index of `account_id`'s balance, if it has one.
    fn find(&self, account_id: AccountId) -> (res: Option<usize>)
        ensures
            match res {
                Some(i) => holds_account(self@, account_id.0@, i as int),
                None => forall|i: int| !holds_account(self@, account_id.0@, i),
            },
    {
        let mut i: usize = 0;
        while i < self.accounts.len()
            invariant
                i <= self@.len(),
                self@ == self.accounts@,
                forall|j: int| 0 <= j < i ==> !holds_account(self@, account_id.0@, j),
            decreases self@.len() - i,
        {
            if bytes32_eq(&self.accounts[i].account_id.0, &account_id.0) {
                return Some(i);
            }
            i = i + 1;
        }
        None
    }

    /// The balance of `account_id`, creating an empty one if it has none.
    pub fn get_or_create(&mut self, account_id: AccountId) -> (res: &mut Balance)
        requires
            old(self).wf(),
        ensures
            (exists|i: int| holds_account(old(self)@, account_id.0@, i)) ==> {
                let i = choose|i: int| holds_account(old(self)@, account_id.0@, i);
                &&& *res == old(self)@[i]
                &&& final(self)@ == old(self)@.update(i, *final(res))
            },
            (forall|i: int| !holds_account(old(self)@, account_id.0@, i)) ==> {
                &&& res.spec_account_id() == account_id
                &&& res.holdings() == 0
                &&& final(self)@ == old(self)@.push(*final(res))
            },
    {
        match self.find(account_id) {
            Some(i) => &mut self.accounts[i],
            None => {
                self.accounts.push(Balance::new(account_id));
                let n = self.accounts.len() - 1;
                &mut self.accounts[n]
            },
        }
    }

    /// The balance of `account_id`, if it has one.
    pub fn get(&self, account_id: AccountId) -> (res: Option<&Balance>)
        ensures
            match res {
                Some(b) => exists|i: int| holds_account(self@, account_id.0@, i) && *b == self@[i],
                None => forall|i: int| !holds_account(self@, account_id.0@, i),
            },
    {
        match self.find(account_id) {
            Some(i) => Some(&self.accounts[i]),
            None => None,
        }
    }
}

} // verus!
