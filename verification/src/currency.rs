//! The two-currency wallet.

use vstd::prelude::*;

verus! {

/// What a wallet holds, as two natural numbers.
pub struct Funds {
    pub cash: nat,
    pub xp: nat,
}

impl Funds {
    /// How a withdrawal of both amounts at once ends. Cash is looked at
    /// first: a wallet short of both is reported short of cash.
    pub open spec fn debit_outcome(self, cash: nat, xp: nat) -> Result<(), WalletError> {
        if cash > self.cash {
            Err(WalletError::InsufficientCash)
        } else if xp > self.xp {
            Err(WalletError::InsufficientXP)
        } else {
            Ok(())
        }
    }

    /// The wallet after a withdrawal: both balances lowered when it goes
    /// through, nothing changed when it is declined.
    pub open spec fn debited(self, cash: nat, xp: nat) -> Funds {
        if self.debit_outcome(cash, xp) is Ok {
            Funds { cash: (self.cash - cash) as nat, xp: (self.xp - xp) as nat }
        } else {
            self
        }
    }

    /// The wallet after a deposit into both balances, each capped.
    pub open spec fn credited(self, cash: nat, xp: nat) -> Funds {
        Funds { cash: capped_sum(self.cash, cash), xp: capped_sum(self.xp, xp) }
    }
}

/// Why a withdrawal was declined.
#[derive(Debug, Copy, Clone, PartialEq, Eq, Structural)]
pub enum WalletError {
    InsufficientCash,
    InsufficientXP,
}

/// A wallet of cash and experience points; also the shape of a price.
#[derive(Debug, Copy, Clone, PartialEq, Eq, Structural)]
pub struct Currency {
    cash: u64,
    xp: u64,
}

impl View for Currency {
    type V = Funds;

    closed spec fn view(&self) -> Funds {
        Funds { cash: self.cash as nat, xp: self.xp as nat }
    }
}

/// Two wallets that hold the same are the same wallet.
pub proof fn lemma_same_funds_same_wallet(left: Currency, right: Currency)
    ensures
        left@ == right@ <==> left == right,
{
}

/// The sum of a balance and a deposit, held at the largest balance a wallet can show.
pub open spec fn capped_sum(balance: nat, deposit: nat) -> nat {
    if balance + deposit <= u64::MAX {
        balance + deposit
    } else {
        u64::MAX as nat
    }
}

impl Currency {
    /// Start with 0 cash + 0 xp
    pub fn new() -> (wallet: Self)
        ensures
            wallet@.cash == 0,
            wallet@.xp == 0,
    {
        Self { cash: 0, xp: 0 }
    }

    /// Returns the amount of cash
    pub fn cash(self) -> (amount: u64)
        ensures
            amount == self@.cash,
    {
        self.cash
    }

    /// Returns the amount of xp
    pub fn xp(self) -> (amount: u64)
        ensures
            amount == self@.xp,
    {
        self.xp
    }

    /// Add n to cash in place. A balance never exceeds `u64::MAX`: a deposit
    /// that would pass it leaves the balance there.
    pub fn add_cash(&mut self, n: u64)
        ensures
            final(self)@.cash == capped_sum(old(self)@.cash, n as nat),
            final(self)@.xp == old(self)@.xp,
    {
        self.cash = self.cash.saturating_add(n);
    }

    /// Add n to xp in place, capped like `add_cash`.
    pub fn add_xp(&mut self, n: u64)
        ensures
            final(self)@.xp == capped_sum(old(self)@.xp, n as nat),
            final(self)@.cash == old(self)@.cash,
    {
        self.xp = self.xp.saturating_add(n);
    }

    /// Take n from cash, or decline and change nothing when the balance is short.
    pub fn rm_cash(&mut self, n: u64) -> (outcome: Result<(), WalletError>)
        ensures
            n <= old(self)@.cash ==> outcome == Ok::<(), WalletError>(())
                && final(self)@.cash == old(self)@.cash - n
                && final(self)@.xp == old(self)@.xp,
            n > old(self)@.cash ==> outcome == Err::<(), WalletError>(WalletError::InsufficientCash)
                && *final(self) == *old(self),
    {
        if n > self.cash {
            return Err(WalletError::InsufficientCash);
        }
        self.cash -= n;
        Ok(())
    }

    /// Take n from xp, or decline and change nothing when the balance is short.
    pub fn rm_xp(&mut self, n: u64) -> (outcome: Result<(), WalletError>)
        ensures
            n <= old(self)@.xp ==> outcome == Ok::<(), WalletError>(())
                && final(self)@.xp == old(self)@.xp - n
                && final(self)@.cash == old(self)@.cash,
            n > old(self)@.xp ==> outcome == Err::<(), WalletError>(WalletError::InsufficientXP)
                && *final(self) == *old(self),
    {
        if n > self.xp {
            return Err(WalletError::InsufficientXP);
        }
        self.xp -= n;
        Ok(())
    }

    /// Pay a price in both currencies at once. Either both balances are
    /// lowered or, when one of them is short, the wallet stays as it was.
    pub fn spend(&mut self, cash: u64, xp: u64) -> (outcome: Result<(), WalletError>)
        ensures
            outcome == old(self)@.debit_outcome(cash as nat, xp as nat),
            final(self)@ == old(self)@.debited(cash as nat, xp as nat),
            outcome is Err ==> *final(self) == *old(self),
    {
        if cash > self.cash {
            return Err(WalletError::InsufficientCash);
        }
        if xp > self.xp {
            return Err(WalletError::InsufficientXP);
        }
        self.cash -= cash;
        self.xp -= xp;
        Ok(())
    }
}

} // verus!
