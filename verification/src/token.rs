//! The governance token as far as votes depend on it: a ledger of handed-out
//! tokens and the weight that an account draws from its share.

use crate::account::AccountId;
use crate::proposal::Balance;
use vstd::prelude::*;

verus! {

/// The weight of an account that holds the whole supply.
pub const FULL_WEIGHT: u64 = 100;

/// The state of the token as a mathematical value.
pub struct TokenState {
    /// What each account was handed; an account without entry holds nothing.
    pub balances: Map<AccountId, Balance>,
    /// The supply the token was created with.
    pub total_supply: Balance,
    /// How much of the supply has been handed out.
    pub circulating_supply: Balance,
    pub name: Option<Seq<char>>,
    pub symbol: Option<Seq<char>>,
    pub decimals: u8,
}

/// The characters of an optional text.
pub open spec fn text_of(text: Option<String>) -> Option<Seq<char>> {
    match text {
        Some(text) => Some(text@),
        None => None,
    }
}

impl TokenState {
    /// The state of a new token.
    pub open spec fn initial(
        initial_supply: Balance,
        name: Option<Seq<char>>,
        symbol: Option<Seq<char>>,
        decimals: u8,
    ) -> TokenState {
        TokenState {
            balances: Map::empty(),
            total_supply: initial_supply,
            circulating_supply: 0,
            name,
            symbol,
            decimals,
        }
    }

    /// Less than the whole supply is handed out, and no account holds more
    /// than was handed out.
    pub open spec fn well_formed(self) -> bool {
        &&& self.circulating_supply == 0 || self.circulating_supply < self.total_supply
        &&& forall|account: AccountId| #[trigger]
            self.balances.contains_key(account) ==> self.balances[account]
                <= self.circulating_supply
    }

    /// What `account` holds.
    pub open spec fn balance_of(self, account: AccountId) -> Balance {
        if self.balances.contains_key(account) {
            self.balances[account]
        } else {
            0
        }
    }

    /// Whether `amount` more can be handed out: the whole supply is never
    /// reached.
    pub open spec fn can_hand_out(self, amount: Balance) -> bool {
        amount + self.circulating_supply < self.total_supply
    }

    /// The state after `amount` was handed to `recipient`, or the same
    /// state where that much cannot be handed out.
    pub open spec fn transferred(self, recipient: AccountId, amount: Balance) -> TokenState {
        if self.can_hand_out(amount) {
            TokenState {
                balances: self.balances.insert(
                    recipient,
                    (self.balance_of(recipient) + amount) as Balance,
                ),
                circulating_supply: (self.circulating_supply + amount) as Balance,
                ..self
            }
        } else {
            self
        }
    }

    /// The weight of `account`: the hundredths of the supply that it holds,
    /// rounded down.
    pub open spec fn weight(self, account: AccountId) -> int
        recommends
            self.total_supply > 0,
    {
        self.balance_of(account) * FULL_WEIGHT / (self.total_supply as int)
    }
}

/// The governance token.
#[derive(Debug)]
pub struct GovernanceToken {
    /// One entry for each account that was handed tokens.
    balances: Vec<(AccountId, Balance)>,
    total_supply: Balance,
    circulating_supply: Balance,
    name: Option<String>,
    symbol: Option<String>,
    decimals: u8,
}

/// The ledger that a list of entries stands for: each account with the
/// amount of its first entry.
pub open spec fn ledger_of(entries: Seq<(AccountId, Balance)>) -> Map<AccountId, Balance> {
    Map::new(
        |account: AccountId| exists|i: int| 0 <= i < entries.len() && #[trigger] entries[i].0 == account,
        |account: AccountId|
            entries[choose|i: int| 0 <= i < entries.len() && #[trigger] entries[i].0 == account].1,
    )
}

/// No account has two entries.
pub open spec fn distinct_accounts(entries: Seq<(AccountId, Balance)>) -> bool {
    forall|i: int, j: int|
        0 <= i < j < entries.len() ==> (#[trigger] entries[i]).0 != (#[trigger] entries[j]).0
}

/// Where no account has two entries, the ledger holds each entry's account
/// with the entry's amount.
pub proof fn lemma_ledger_entries(entries: Seq<(AccountId, Balance)>)
    requires
        distinct_accounts(entries),
    ensures
        forall|i: int|
            0 <= i < entries.len() ==> {
                &&& ledger_of(entries).contains_key((#[trigger] entries[i]).0)
                &&& ledger_of(entries)[entries[i].0] == entries[i].1
            },
{
    assert forall|i: int| 0 <= i < entries.len() implies {
        &&& ledger_of(entries).contains_key((#[trigger] entries[i]).0)
        &&& ledger_of(entries)[entries[i].0] == entries[i].1
    } by {
        let account = entries[i].0;
        let chosen = choose|k: int| 0 <= k < entries.len() && #[trigger] entries[k].0 == account;
        if chosen < i {
            assert(entries[chosen].0 != entries[i].0);
        } else if chosen > i {
            assert(entries[i].0 != entries[chosen].0);
        }
    }
}

/// Where no account has two entries, a new amount in the entry at `index`
/// is a new amount for its account in the ledger.
proof fn lemma_ledger_update(entries: Seq<(AccountId, Balance)>, index: int, amount: Balance)
    requires
        distinct_accounts(entries),
        0 <= index < entries.len(),
    ensures
        distinct_accounts(entries.update(index, (entries[index].0, amount))),
        ledger_of(entries.update(index, (entries[index].0, amount))) == ledger_of(entries).insert(
            entries[index].0,
            amount,
        ),
{
    let after = entries.update(index, (entries[index].0, amount));
    assert forall|i: int, j: int| 0 <= i < j < after.len() implies (#[trigger] after[i]).0 != (
    #[trigger] after[j]).0 by {
        assert(entries[i].0 != entries[j].0);
    }
    lemma_ledger_entries(entries);
    lemma_ledger_entries(after);
    assert forall|account: AccountId|
        ledger_of(after).contains_key(account) <==> ledger_of(entries).contains_key(account) by {
        if ledger_of(entries).contains_key(account) {
            let k = choose|k: int| 0 <= k < entries.len() && #[trigger] entries[k].0 == account;
            assert(after[k].0 == account);
        }
        if ledger_of(after).contains_key(account) {
            let k = choose|k: int| 0 <= k < after.len() && #[trigger] after[k].0 == account;
            assert(entries[k].0 == account);
        }
    }
    assert forall|account: AccountId| ledger_of(after).contains_key(account) implies ledger_of(
        after,
    )[account] == ledger_of(entries).insert(entries[index].0, amount)[account] by {
        let k = choose|k: int| 0 <= k < after.len() && #[trigger] after[k].0 == account;
        assert(ledger_of(after)[after[k].0] == after[k].1);
        assert(ledger_of(entries)[entries[k].0] == entries[k].1);
    }
    assert(ledger_of(after) =~= ledger_of(entries).insert(entries[index].0, amount));
}

/// Where no account has two entries, an entry for an account without one
/// adds the account to the ledger.
proof fn lemma_ledger_push(entries: Seq<(AccountId, Balance)>, account: AccountId, amount: Balance)
    requires
        distinct_accounts(entries),
        !ledger_of(entries).contains_key(account),
    ensures
        distinct_accounts(entries.push((account, amount))),
        ledger_of(entries.push((account, amount))) == ledger_of(entries).insert(account, amount),
{
    let after = entries.push((account, amount));
    assert forall|i: int, j: int| 0 <= i < j < after.len() implies (#[trigger] after[i]).0 != (
    #[trigger] after[j]).0 by {
        if j < entries.len() {
            assert(entries[i].0 != entries[j].0);
        } else {
            assert(entries[i].0 != account);
        }
    }
    lemma_ledger_entries(entries);
    lemma_ledger_entries(after);
    assert(after[entries.len() as int].0 == account);
    assert forall|other: AccountId|
        ledger_of(after).contains_key(other) <==> ledger_of(entries).contains_key(other) || other
            == account by {
        if ledger_of(entries).contains_key(other) {
            let k = choose|k: int| 0 <= k < entries.len() && #[trigger] entries[k].0 == other;
            assert(after[k].0 == other);
        }
        if ledger_of(after).contains_key(other) {
            let k = choose|k: int| 0 <= k < after.len() && #[trigger] after[k].0 == other;
            if k < entries.len() {
                assert(entries[k].0 == other);
            }
        }
    }
    assert forall|other: AccountId| ledger_of(after).contains_key(other) implies ledger_of(
        after,
    )[other] == ledger_of(entries).insert(account, amount)[other] by {
        let k = choose|k: int| 0 <= k < after.len() && #[trigger] after[k].0 == other;
        assert(ledger_of(after)[after[k].0] == after[k].1);
        if k < entries.len() {
            assert(ledger_of(entries)[entries[k].0] == entries[k].1);
        }
    }
    assert(ledger_of(after) =~= ledger_of(entries).insert(account, amount));
}

/// The state of a token laid out as plain values, as it is kept between
/// calls: one entry for each account that holds tokens.
#[derive(Debug, PartialEq, Eq)]
pub struct TokenSnapshot {
    pub balances: Vec<(AccountId, Balance)>,
    pub total_supply: Balance,
    pub circulating_supply: Balance,
    pub name: Option<String>,
    pub symbol: Option<String>,
    pub decimals: u8,
}

impl TokenSnapshot {
    /// The state that the values stand for.
    pub open spec fn state(&self) -> TokenState {
        TokenState {
            balances: ledger_of(self.balances@),
            total_supply: self.total_supply,
            circulating_supply: self.circulating_supply,
            name: text_of(self.name),
            symbol: text_of(self.symbol),
            decimals: self.decimals,
        }
    }

    /// Whether a token can be made of the values: no account has two
    /// entries, and the state they stand for is well formed.
    pub open spec fn restorable(&self) -> bool {
        &&& distinct_accounts(self.balances@)
        &&& self.state().well_formed()
    }
}

impl View for GovernanceToken {
    type V = TokenState;

    closed spec fn view(&self) -> TokenState {
        TokenState {
            balances: ledger_of(self.balances@),
            total_supply: self.total_supply,
            circulating_supply: self.circulating_supply,
            name: text_of(self.name),
            symbol: text_of(self.symbol),
            decimals: self.decimals,
        }
    }
}

impl GovernanceToken {
    /// No account has two entries.
    pub closed spec fn distinct(&self) -> bool {
        distinct_accounts(self.balances@)
    }

    /// The token is consistent within itself and so is the state it stands
    /// for.
    pub open spec fn well_formed(&self) -> bool {
        &&& self.distinct()
        &&& self@.well_formed()
    }

    /// The index of the entry of `account`, if it has one.
    fn find(&self, account: &AccountId) -> (found: Option<usize>)
        requires
            self.distinct(),
        ensures
            found is Some <==> self@.balances.contains_key(*account),
            found matches Some(index) ==> {
                &&& index < self.balances@.len()
                &&& self.balances@[index as int].0 == *account
                &&& self.balances@[index as int].1 == self@.balances[*account]
            },
    {
        let mut i: usize = 0;
        while i < self.balances.len()
            invariant
                i <= self.balances.len(),
                self.distinct(),
                forall|j: int| 0 <= j < i ==> self.balances@[j].0 != *account,
            decreases self.balances.len() - i,
        {
            if self.balances[i].0 == *account {
                proof {
                    lemma_ledger_entries(self.balances@);
                }
                return Some(i);
            }
            i += 1;
        }
        None
    }

    /// A token with a supply of `initial_supply`, none of it handed out.
    pub fn new(initial_supply: Balance, name: Option<String>, symbol: Option<String>, decimal: u8) -> (token:
        GovernanceToken)
        ensures
            token.well_formed(),
            token@ == TokenState::initial(initial_supply, text_of(name), text_of(symbol), decimal),
    {
        let token = GovernanceToken {
            balances: Vec::new(),
            total_supply: initial_supply,
            circulating_supply: 0,
            name,
            symbol,
            decimals: decimal,
        };
        assert(token@.balances =~= Map::empty());
        token
    }

    /// Hands `amount` of the supply to `recipient`, as long as less than the
    /// whole supply is handed out afterwards; otherwise nothing changes.
    pub fn transfer_to(&mut self, recipient: AccountId, amount: Balance)
        requires
            old(self).well_formed(),
        ensures
            final(self).well_formed(),
            final(self)@ == old(self)@.transferred(recipient, amount),
    {
        if self.circulating_supply < self.total_supply && amount < self.total_supply
            - self.circulating_supply {
            match self.find(&recipient) {
                Some(index) => {
                    let held = self.balances[index].1;
                    proof {
                        lemma_ledger_update(self.balances@, index as int, (held + amount) as Balance);
                    }
                    self.balances[index] = (recipient, held + amount);
                },
                None => {
                    proof {
                        lemma_ledger_push(self.balances@, recipient, amount);
                    }
                    self.balances.push((recipient, amount));
                },
            }
            self.circulating_supply += amount;
        }
    }

    /// Makes a token of a snapshot, if the snapshot is one of a token.
    pub fn restore(snapshot: TokenSnapshot) -> (restored: Option<GovernanceToken>)
        ensures
            restored is Some <==> snapshot.restorable(),
            restored matches Some(token) ==> token.well_formed() && token@ == snapshot.state(),
    {
        let ghost state = snapshot.state();
        let TokenSnapshot { balances, total_supply, circulating_supply, name, symbol, decimals } =
            snapshot;
        if circulating_supply != 0 && circulating_supply >= total_supply {
            return None;
        }
        let mut i: usize = 0;
        while i < balances.len()
            invariant
                i <= balances.len(),
                snapshot.balances == balances,
                snapshot.circulating_supply == circulating_supply,
                state == snapshot.state(),
                distinct_accounts(balances@.take(i as int)),
                forall|j: int| 0 <= j < i ==> (#[trigger] balances@[j]).1 <= circulating_supply,
            decreases balances.len() - i,
        {
            let mut j: usize = 0;
            while j < i
                invariant
                    j <= i < balances.len(),
                    snapshot.balances == balances,
                    forall|k: int| 0 <= k < j ==> (#[trigger] balances@[k]).0 != balances@[i as int].0,
                decreases i - j,
            {
                if balances[j].0 == balances[i].0 {
                    assert(balances@[j as int].0 == balances@[i as int].0);
                    return None;
                }
                j += 1;
            }
            if balances[i].1 > circulating_supply {
                proof {
                    if distinct_accounts(balances@) {
                        lemma_ledger_entries(balances@);
                        assert(state.balances[balances@[i as int].0] == balances@[i as int].1);
                    }
                }
                return None;
            }
            proof {
                let longer = balances@.take(i + 1);
                assert forall|a: int, b: int| 0 <= a < b < longer.len() implies (
                #[trigger] longer[a]).0 != (#[trigger] longer[b]).0 by {
                    if b < i {
                        assert(balances@.take(i as int)[a].0 != balances@.take(i as int)[b].0);
                    }
                }
            }
            i += 1;
        }
        let token = GovernanceToken {
            balances,
            total_supply,
            circulating_supply,
            name,
            symbol,
            decimals,
        };
        proof {
            assert(balances@.take(balances@.len() as int) == balances@);
            assert forall|account: AccountId| #[trigger]
                state.balances.contains_key(account) implies state.balances[account]
                <= circulating_supply by {
                let k = choose|k: int|
                    0 <= k < balances@.len() && #[trigger] balances@[k].0 == account;
                assert(balances@[k].1 <= circulating_supply);
            }
        }
        Some(token)
    }

    /// Lays the state of the token out as plain values.
    pub fn into_snapshot(self) -> (snapshot: TokenSnapshot)
        requires
            self.well_formed(),
        ensures
            snapshot.restorable(),
            snapshot.state() == self@,
    {
        TokenSnapshot {
            balances: self.balances,
            total_supply: self.total_supply,
            circulating_supply: self.circulating_supply,
            name: self.name,
            symbol: self.symbol,
            decimals: self.decimals,
        }
    }

    /// The weight of `account` in a vote: the hundredths of the supply that
    /// it holds, rounded down.
    ///
    /// The hundredths are counted one by one, so that the hundredfold of the
    /// balance, which may not fit an amount, is never formed.
    pub fn weight(&self, account: AccountId) -> (weight: u64)
        requires
            self.well_formed(),
            self@.total_supply > 0,
        ensures
            weight == self@.weight(account),
            weight < FULL_WEIGHT,
    {
        let balance = self.balance_of(account);
        let supply = self.total_supply;
        let mut hundredths: u64 = 0;
        let mut rest: Balance = 0;
        let mut step: u64 = 0;
        while step < FULL_WEIGHT
            invariant
                step <= FULL_WEIGHT,
                balance < supply,
                rest < supply,
                hundredths <= step,
                step * balance == hundredths * supply + rest,
            decreases FULL_WEIGHT - step,
        {
            proof {
                assert((step + 1) * balance == step * balance + balance) by (nonlinear_arith);
                assert((hundredths + 1) * supply == hundredths * supply + supply)
                    by (nonlinear_arith);
            }
            if rest >= supply - balance {
                rest = rest - (supply - balance);
                hundredths += 1;
            } else {
                rest += balance;
            }
            step += 1;
        }
        proof {
            let product = balance * FULL_WEIGHT;
            assert(product == hundredths * supply + rest) by (nonlinear_arith)
                requires
                    step * balance == hundredths * supply + rest,
                    step == FULL_WEIGHT,
                    product == balance * FULL_WEIGHT,
            ;
            vstd::arithmetic::div_mod::lemma_fundamental_div_mod_converse(
                product,
                supply as int,
                hundredths as int,
                rest as int,
            );
            assert(hundredths < FULL_WEIGHT) by (nonlinear_arith)
                requires
                    balance * FULL_WEIGHT == hundredths * supply + rest,
                    0 <= balance < supply,
                    0 <= rest,
                    FULL_WEIGHT == 100,
            ;
        }
        hundredths
    }

    /// What `account` holds.
    pub fn balance_of(&self, account: AccountId) -> (balance: Balance)
        requires
            self.well_formed(),
        ensures
            balance == self@.balance_of(account),
    {
        match self.find(&account) {
            Some(index) => self.balances[index].1,
            None => 0,
        }
    }

    /// The supply the token was created with.
    pub fn total_supply(&self) -> (supply: Balance)
        ensures
            supply == self@.total_supply,
    {
        self.total_supply
    }

    /// How much of the supply has been handed out.
    pub fn circulating_supply(&self) -> (supply: Balance)
        ensures
            supply == self@.circulating_supply,
    {
        self.circulating_supply
    }

    /// The name of the token.
    pub fn name(&self) -> (name: &Option<String>)
        ensures
            text_of(*name) == self@.name,
    {
        &self.name
    }

    /// The symbol of the token.
    pub fn symbol(&self) -> (symbol: &Option<String>)
        ensures
            text_of(*symbol) == self@.symbol,
    {
        &self.symbol
    }

    /// The number of decimals in which amounts are shown.
    pub fn decimals(&self) -> (decimals: u8)
        ensures
            decimals == self@.decimals,
    {
        self.decimals
    }
}

} // verus!
