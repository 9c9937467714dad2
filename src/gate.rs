use vstd::prelude::*;
use crate::error::ArbitrageError;
use crate::state::ExchangeState;

verus! {

/// Whether two 32-byte identities are the same.
pub fn same_identity(a: &[u8; 32], b: &[u8; 32]) -> (r: bool)
    ensures
        r == (a@ == b@),
{
    let mut i: usize = 0;
    while i < 32
        invariant
            0 <= i <= 32,
            a@.len() == 32,
            b@.len() == 32,
            forall|j: int| 0 <= j < i ==> a@[j] == b@[j],
        decreases 32 - i,
    {
        if a[i] != b[i] {
            return false;
        }
        i = i + 1;
    }
    assert(a@ =~= b@);
    true
}

/// An allow-list entry of the time-window gate: it admits every identity
/// whose first and last bytes are these.
#[derive(Clone, Copy, Debug, PartialEq, Eq, Structural)]
pub struct IdentityMark {
    pub first: u8,
    pub last: u8,
}

impl IdentityMark {
    pub open spec fn matches_spec(self, id: [u8; 32]) -> bool {
        id@[0] == self.first && id@[31] == self.last
    }

    /// Whether `id` carries this mark.
    pub fn matches(&self, id: &[u8; 32]) -> (r: bool)
        ensures
            r == self.matches_spec(*id),
    {
        id[0] == self.first && id[31] == self.last
    }
}

/// A rate limiter on routes open to the public: a caller that carries a mark
/// of the allow-list always passes; anyone else passes only while the clock's
/// remainder modulo `period` is below `open_slots`.
pub struct TimeWindowGate {
    pub allow_list: Vec<IdentityMark>,
    pub period: u64,
    pub open_slots: u64,
}

/// Whether `caller` carries a mark of the allow-list.
pub open spec fn listed(allow_list: Seq<IdentityMark>, caller: [u8; 32]) -> bool {
    exists|i: int| 0 <= i < allow_list.len() && (#[trigger] allow_list[i]).matches_spec(caller)
}

/// Whether the clock reading `now` falls in an open slot. A negative reading
/// leaves a remainder of at most zero under truncating division, so it is
/// always open; a zero period has no open slot.
pub open spec fn window_open(period: u64, open_slots: u64, now: i64) -> bool {
    if now < 0 {
        true
    } else if period == 0 {
        false
    } else {
        (now as int) % (period as int) < open_slots
    }
}

impl TimeWindowGate {
    pub open spec fn admits_spec(&self, caller: [u8; 32], now: i64) -> bool {
        listed(self.allow_list@, caller) || window_open(self.period, self.open_slots, now)
    }

    /// Whether `caller` may run a time-gated route at clock reading `now`.
    pub fn admits(&self, caller: &[u8; 32], now: i64) -> (r: bool)
        ensures
            r == self.admits_spec(*caller, now),
    {
        let mut i: usize = 0;
        while i < self.allow_list.len()
            invariant
                0 <= i <= self.allow_list@.len(),
                forall|j: int| 0 <= j < i ==> !(#[trigger] self.allow_list@[j]).matches_spec(*caller),
            decreases self.allow_list@.len() - i,
        {
            if self.allow_list[i].matches(caller) {
                return true;
            }
            i = i + 1;
        }
        if now < 0 {
            true
        } else if self.period == 0 {
            false
        } else {
            (now as u64) % self.period < self.open_slots
        }
    }

    /// Rejects a caller that this limiter does not admit.
    pub fn check(&self, caller: &[u8; 32], now: i64) -> (r: Result<(), ArbitrageError>)
        ensures
            r == if self.admits_spec(*caller, now) {
                Ok::<(), ArbitrageError>(())
            } else {
                Err(ArbitrageError::TimeWindowRejected)
            },
    {
        if self.admits(caller, now) {
            Ok(())
        } else {
            Err(ArbitrageError::TimeWindowRejected)
        }
    }
}

/// The profitability gate's verdict on a ledger.
pub open spec fn profitable(l: ExchangeState) -> Result<(), ArbitrageError> {
    if l.total_lost > l.total_profit {
        Err(ArbitrageError::UnprofitableBatch)
    } else {
        Ok(())
    }
}

/// The profitability gate: fails with `UnprofitableBatch` exactly when the
/// epoch has lost more than it has made.
pub fn enforce_profitability(l: &ExchangeState) -> (r: Result<(), ArbitrageError>)
    ensures
        r == profitable(*l),
{
    if l.total_profit < l.total_lost {
        Err(ArbitrageError::UnprofitableBatch)
    } else {
        Ok(())
    }
}

} // verus!
