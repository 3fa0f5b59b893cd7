//! The transfer executor: moves value between accounts in all-or-nothing
//! batches of legs.

use vstd::prelude::*;
use crate::address::Address;

verus! {

/// One movement of value from one account to another.
#[derive(Clone, Copy, Debug, PartialEq, Eq)]
pub struct Leg {
    pub from: Address,
    pub to: Address,
    pub amount: u64,
}

/// A batch of one leg.
pub fn single_leg(from: Address, to: Address, amount: u64) -> (r: Vec<Leg>)
    ensures
        r@ == seq![Leg { from, to, amount }],
{
    let mut r: Vec<Leg> = Vec::new();
    r.push(Leg { from, to, amount });
    proof {
        assert(r@ =~= seq![Leg { from, to, amount }]);
    }
    r
}

/// A batch of two legs, in order.
pub fn leg_pair(first: Leg, second: Leg) -> (r: Vec<Leg>)
    ensures
        r@ == seq![first, second],
{
    let mut r: Vec<Leg> = Vec::new();
    r.push(first);
    r.push(second);
    proof {
        assert(r@ =~= seq![first, second]);
    }
    r
}

/// Why a batch of legs was refused. Nothing of a refused batch is applied.
#[derive(Clone, Copy, Debug, PartialEq, Eq)]
pub enum TransferError {
    /// A leg names an account that the ledger does not hold.
    UnknownAccount,
    /// A leg would take more than its source holds.
    InsufficientBalance,
    /// A leg would push its destination past the 64-bit range.
    BalanceOverflow,
    /// An account was opened twice.
    AccountExists,
}

/// The balances after one leg, or why the leg cannot be made.
pub open spec fn apply_leg(m: Map<Address, u64>, leg: Leg) -> Result<Map<Address, u64>, TransferError> {
    if !m.contains_key(leg.from) || !m.contains_key(leg.to) {
        Err(TransferError::UnknownAccount)
    } else if m[leg.from] < leg.amount {
        Err(TransferError::InsufficientBalance)
    } else {
        let debited = m.insert(leg.from, (m[leg.from] - leg.amount) as u64);
        if debited[leg.to] + leg.amount > u64::MAX {
            Err(TransferError::BalanceOverflow)
        } else {
            Ok(debited.insert(leg.to, (debited[leg.to] + leg.amount) as u64))
        }
    }
}

/// The balances after the legs in order, or the refusal of the first leg
/// that cannot be made.
pub open spec fn apply_legs(m: Map<Address, u64>, legs: Seq<Leg>) -> Result<Map<Address, u64>, TransferError>
    decreases legs.len(),
{
    if legs.len() == 0 {
        Ok(m)
    } else {
        match apply_leg(m, legs[0]) {
            Ok(next) => apply_legs(next, legs.drop_first()),
            Err(e) => Err(e),
        }
    }
}

/// The position of an account in a list that holds it.
pub open spec fn index_of(accounts: Seq<Address>, a: Address) -> int {
    choose|i: int| 0 <= i < accounts.len() && accounts[i] == a
}

pub open spec fn unique(accounts: Seq<Address>) -> bool {
    forall|i: int, j: int|
        0 <= i < accounts.len() && 0 <= j < accounts.len() && accounts[i] == accounts[j] ==> i == j
}

pub open spec fn balances_map(accounts: Seq<Address>, balances: Seq<u64>) -> Map<Address, u64> {
    Map::new(|a: Address| accounts.contains(a), |a: Address| balances[index_of(accounts, a)])
}

proof fn lemma_index_of(accounts: Seq<Address>, i: int)
    requires
        unique(accounts),
        0 <= i < accounts.len(),
    ensures
        index_of(accounts, accounts[i]) == i,
{
    let a = accounts[i];
    assert(0 <= i < accounts.len() && accounts[i] == a);
    let j = index_of(accounts, a);
    assert(0 <= j < accounts.len() && accounts[j] == a);
}

proof fn lemma_update_balance(accounts: Seq<Address>, balances: Seq<u64>, i: int, v: u64)
    requires
        unique(accounts),
        accounts.len() == balances.len(),
        0 <= i < accounts.len(),
    ensures
        balances_map(accounts, balances.update(i, v)) == balances_map(accounts, balances).insert(
            accounts[i],
            v,
        ),
{
    let lhs = balances_map(accounts, balances.update(i, v));
    let rhs = balances_map(accounts, balances).insert(accounts[i], v);
    assert(accounts.contains(accounts[i]));
    assert forall|a: Address| lhs.contains_key(a) implies lhs[a] == rhs[a] by {
        let j = index_of(accounts, a);
        assert(0 <= j < accounts.len() && accounts[j] == a);
        lemma_index_of(accounts, j);
        if a == accounts[i] {
            lemma_index_of(accounts, i);
        }
    }
    assert(lhs =~= rhs);
}

/// Balances held per account.
pub struct Ledger {
    accounts: Vec<Address>,
    balances: Vec<u64>,
}

impl Ledger {
    pub closed spec fn view(&self) -> Map<Address, u64> {
        balances_map(self.accounts@, self.balances@)
    }

    pub closed spec fn wf(&self) -> bool {
        &&& self.accounts@.len() == self.balances@.len()
        &&& unique(self.accounts@)
    }

    pub fn new() -> (r: Ledger)
        ensures
            r.wf(),
            r@ == Map::<Address, u64>::empty(),
    {
        let r = Ledger { accounts: Vec::new(), balances: Vec::new() };
        assert(r@ =~= Map::<Address, u64>::empty());
        r
    }

    fn position(&self, a: &Address) -> (r: Option<usize>)
        requires
            self.wf(),
        ensures
            r matches Some(i) ==> i < self.accounts@.len() && self.accounts@[i as int] == *a,
            r is None ==> !self.accounts@.contains(*a),
    {
        let mut i: usize = 0;
        while i < self.accounts.len()
            invariant
                self.wf(),
                i <= self.accounts@.len(),
                forall|j: int| 0 <= j < i ==> self.accounts@[j] != *a,
            decreases self.accounts@.len() - i,
        {
            if self.accounts[i].same_as(a) {
                return Some(i);
            }
            i = i + 1;
        }
        None
    }

    /// Opens an account with a starting balance.
    pub fn open_account(&mut self, a: Address, balance: u64) -> (r: Result<(), TransferError>)
        requires
            old(self).wf(),
        ensures
            final(self).wf(),
            r is Err <==> old(self)@.contains_key(a),
            r matches Err(e) ==> e == TransferError::AccountExists && final(self)@ == old(self)@,
            r is Ok ==> final(self)@ == old(self)@.insert(a, balance),
    {
        match self.position(&a) {
            Some(i) => {
                proof {
                    assert(self.accounts@.contains(a));
                }
                Err(TransferError::AccountExists)
            },
            None => {
                let ghost old_accounts = self.accounts@;
                let ghost old_balances = self.balances@;
                self.accounts.push(a);
                self.balances.push(balance);
                proof {
                    let n = old_accounts.len() as int;
                    assert forall|i: int, j: int|
                        0 <= i < self.accounts@.len() && 0 <= j < self.accounts@.len()
                            && self.accounts@[i] == self.accounts@[j] implies i == j by {
                        if i < n && j == n {
                            assert(old_accounts.contains(self.accounts@[i]));
                        }
                        if j < n && i == n {
                            assert(old_accounts.contains(self.accounts@[j]));
                        }
                    }
                    let lhs = self@;
                    let rhs = balances_map(old_accounts, old_balances).insert(a, balance);
                    assert forall|b: Address| lhs.contains_key(b) implies lhs[b] == rhs[b] by {
                        let j = index_of(self.accounts@, b);
                        assert(0 <= j < self.accounts@.len() && self.accounts@[j] == b);
                        lemma_index_of(self.accounts@, j);
                        if b != a {
                            assert(j < n);
                            assert(old_accounts.contains(b));
                            let k = index_of(old_accounts, b);
                            assert(0 <= k < n && old_accounts[k] == b);
                            lemma_index_of(self.accounts@, k);
                        }
                    }
                    assert forall|b: Address| rhs.contains_key(b) implies lhs.contains_key(b) by {
                        if b != a {
                            let k = index_of(old_accounts, b);
                            assert(0 <= k < n && old_accounts[k] == b);
                            assert(self.accounts@[k] == b);
                        } else {
                            assert(self.accounts@[n] == a);
                        }
                    }
                    assert(lhs =~= rhs);
                }
                Ok(())
            },
        }
    }

    /// The balance of an account, if the ledger holds it.
    pub fn balance(&self, a: &Address) -> (r: Option<u64>)
        requires
            self.wf(),
        ensures
            r is Some <==> self@.contains_key(*a),
            r matches Some(b) ==> b == self@[*a],
    {
        match self.position(a) {
            Some(i) => {
                proof {
                    assert(self.accounts@.contains(*a));
                    lemma_index_of(self.accounts@, i as int);
                }
                Some(self.balances[i])
            },
            None => None,
        }
    }

    /// Executes the legs in order as one unit: either every leg is applied,
    /// or the first leg that cannot be made is reported and no balance
    /// changes at all.
    pub fn execute(&mut self, legs: &Vec<Leg>) -> (r: Result<(), TransferError>)
        requires
            old(self).wf(),
        ensures
            final(self).wf(),
            match apply_legs(old(self)@, legs@) {
                Ok(m) => r is Ok && final(self)@ == m,
                Err(e) => r == Err::<(), TransferError>(e) && final(self)@ == old(self)@,
            },
    {
        let mut work: Vec<u64> = self.balances.clone();
        proof {
            assert(work@ =~= self.balances@);
            assert(legs@.subrange(0, legs@.len() as int) =~= legs@);
        }
        let mut i: usize = 0;
        while i < legs.len()
            invariant
                self.wf(),
                work@.len() == self.accounts@.len(),
                i <= legs@.len(),
                apply_legs(self@, legs@) == apply_legs(
                    balances_map(self.accounts@, work@),
                    legs@.subrange(i as int, legs@.len() as int),
                ),
            decreases legs@.len() - i,
        {
            let leg = legs[i];
            let ghost m = balances_map(self.accounts@, work@);
            let ghost rest = legs@.subrange(i as int, legs@.len() as int);
            proof {
                assert(rest[0] == leg);
                assert(rest.drop_first() =~= legs@.subrange(i + 1, legs@.len() as int));
            }
            let f = match self.position(&leg.from) {
                Some(f) => f,
                None => {
                    return Err(TransferError::UnknownAccount);
                },
            };
            let t = match self.position(&leg.to) {
                Some(t) => t,
                None => {
                    proof {
                        assert(self.accounts@.contains(leg.from));
                    }
                    return Err(TransferError::UnknownAccount);
                },
            };
            proof {
                assert(self.accounts@.contains(leg.from));
                assert(self.accounts@.contains(leg.to));
                lemma_index_of(self.accounts@, f as int);
                lemma_index_of(self.accounts@, t as int);
            }
            if work[f] < leg.amount {
                return Err(TransferError::InsufficientBalance);
            }
            let debited = work[f] - leg.amount;
            proof {
                lemma_update_balance(self.accounts@, work@, f as int, debited);
            }
            work.set(f, debited);
            if work[t] > u64::MAX - leg.amount {
                return Err(TransferError::BalanceOverflow);
            }
            let credited = work[t] + leg.amount;
            proof {
                lemma_update_balance(self.accounts@, work@, t as int, credited);
            }
            work.set(t, credited);
            i = i + 1;
        }
        self.balances = work;
        proof {
            assert(legs@.subrange(i as int, legs@.len() as int).len() == 0);
        }
        Ok(())
    }
}

} // verus!
