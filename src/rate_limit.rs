use vstd::prelude::*;

verus! {

/// Token-bucket state embedded in each minting policy.
#[derive(Clone, Copy, Debug, PartialEq, Eq, Structural)]
pub struct RateLimit {
    pub capacity: u64,
    pub remaining_amount: u64,
    pub refill_per_second: u64,
    pub last_refill_time: u64,
}

/// Why a consumption was refused.
#[derive(Clone, Copy, Debug, PartialEq, Eq, Structural)]
pub enum LimitError {
    LimitExceeded,
}

/// `x` clamped into `u64`.
pub open spec fn clamp_u64(x: int) -> u64 {
    if x > u64::MAX {
        u64::MAX
    } else {
        x as u64
    }
}

/// Tokens accrued between the last refill and `current_time`; none when the
/// clock has not moved forward.
pub open spec fn accrued(rl: RateLimit, current_time: u64) -> u64 {
    if current_time > rl.last_refill_time {
        clamp_u64((current_time - rl.last_refill_time) * rl.refill_per_second)
    } else {
        0
    }
}

/// Tokens available at `current_time`: the stored balance plus what accrued,
/// capped at the capacity.
pub open spec fn available(rl: RateLimit, current_time: u64) -> u64 {
    let grown = clamp_u64(rl.remaining_amount + accrued(rl, current_time));
    if rl.capacity < grown {
        rl.capacity
    } else {
        grown
    }
}

/// The bucket once the refill at `current_time` is committed.
pub open spec fn refilled(rl: RateLimit, current_time: u64) -> RateLimit {
    RateLimit {
        remaining_amount: available(rl, current_time),
        last_refill_time: current_time,
        ..rl
    }
}

/// A consumption of `amount` at `current_time`: the refill is committed in
/// any case, and the debit happens only when the refilled balance covers it.
pub open spec fn consumed(rl: RateLimit, amount: u64, current_time: u64) -> (RateLimit, Result<u64, LimitError>) {
    let r = refilled(rl, current_time);
    if amount <= r.remaining_amount {
        let left = (r.remaining_amount - amount) as u64;
        (RateLimit { remaining_amount: left, ..r }, Ok(left))
    } else {
        (r, Err(LimitError::LimitExceeded))
    }
}

/// The bucket after a sequence of `(amount, time)` consumptions, in order.
pub open spec fn consumed_all(rl: RateLimit, calls: Seq<(u64, u64)>) -> RateLimit
    decreases calls.len(),
{
    if calls.len() == 0 {
        rl
    } else {
        let prev = consumed_all(rl, calls.drop_last());
        consumed(prev, calls.last().0, calls.last().1).0
    }
}

fn saturating_mul(x: u64, y: u64) -> (r: u64)
    ensures
        r == clamp_u64(x * y),
{
    match x.checked_mul(y) {
        Some(v) => v,
        None => u64::MAX,
    }
}

impl RateLimit {
    /// A bucket with the given limits that starts empty at time zero.
    pub fn new(capacity: u64, refill_per_second: u64) -> (r: RateLimit)
        ensures
            r == (RateLimit { capacity, remaining_amount: 0, refill_per_second, last_refill_time: 0 }),
    {
        RateLimit { capacity, remaining_amount: 0, refill_per_second, last_refill_time: 0 }
    }

    /// The balance that a refill at `current_time` would give, without
    /// changing anything.
    pub fn refill(&self, current_time: u64) -> (r: u64)
        ensures
            r == available(*self, current_time),
            r <= self.capacity,
    {
        let mut new_tokens: u64 = 0;
        if current_time > self.last_refill_time {
            let time_elapsed_in_seconds = current_time - self.last_refill_time;
            new_tokens = new_tokens.saturating_add(
                saturating_mul(time_elapsed_in_seconds, self.refill_per_second),
            );
        }
        let grown = self.remaining_amount.saturating_add(new_tokens);
        if self.capacity < grown {
            self.capacity
        } else {
            grown
        }
    }

    /// Commits the refill at `current_time`, then debits `amount` if the
    /// balance covers it. Returns the balance left after the debit.
    pub fn check_limit(&mut self, amount: u64, current_time: u64) -> (r: Result<u64, LimitError>)
        ensures
            (*final(self), r) == consumed(*old(self), amount, current_time),
    {
        self.remaining_amount = self.refill(current_time);
        self.last_refill_time = current_time;
        match self.remaining_amount.checked_sub(amount) {
            Some(left) => {
                self.remaining_amount = left;
                Ok(left)
            },
            None => Err(LimitError::LimitExceeded),
        }
    }
}

/// Consumption never lets the balance exceed the capacity: starting from a
/// bucket whose balance is within its capacity, after any sequence of
/// consumptions the balance is still within it (and, being unsigned, never
/// below zero).
pub proof fn lemma_consumption_within_capacity(rl: RateLimit, calls: Seq<(u64, u64)>)
    requires
        rl.remaining_amount <= rl.capacity,
    ensures
        consumed_all(rl, calls).remaining_amount <= consumed_all(rl, calls).capacity,
        consumed_all(rl, calls).capacity == rl.capacity,
        consumed_all(rl, calls).refill_per_second == rl.refill_per_second,
    decreases calls.len(),
{
    if calls.len() > 0 {
        lemma_consumption_within_capacity(rl, calls.drop_last());
    }
}

/// With the clock never going back, the time of the last refill follows the
/// latest consumption time.
pub proof fn lemma_consumption_clock_monotone(rl: RateLimit, calls: Seq<(u64, u64)>)
    requires
        forall|i: int| 0 <= i < calls.len() ==> rl.last_refill_time <= #[trigger] calls[i].1,
        forall|i: int, j: int| 0 <= i <= j < calls.len() ==> calls[i].1 <= calls[j].1,
    ensures
        calls.len() == 0 ==> consumed_all(rl, calls).last_refill_time == rl.last_refill_time,
        calls.len() > 0 ==> consumed_all(rl, calls).last_refill_time == calls.last().1,
        rl.last_refill_time <= consumed_all(rl, calls).last_refill_time,
    decreases calls.len(),
{
    if calls.len() > 0 {
        let prefix = calls.drop_last();
        assert forall|i: int, j: int| 0 <= i <= j < prefix.len() implies prefix[i].1 <= prefix[j].1 by {
            assert(prefix[i] == calls[i] && prefix[j] == calls[j]);
        }
        assert forall|i: int| 0 <= i < prefix.len() implies rl.last_refill_time <= #[trigger] prefix[i].1 by {
            assert(prefix[i] == calls[i]);
        }
        lemma_consumption_clock_monotone(rl, prefix);
        if prefix.len() > 0 {
            assert(prefix.last() == calls[calls.len() - 2]);
        }
    }
}

/// Refilling is idempotent: once the refill at `current_time` is committed,
/// projecting again at the same time gives the same balance.
pub proof fn lemma_refill_idempotent(rl: RateLimit, current_time: u64)
    ensures
        available(refilled(rl, current_time), current_time) == available(rl, current_time),
        refilled(refilled(rl, current_time), current_time) == refilled(rl, current_time),
{
}

} // verus!
