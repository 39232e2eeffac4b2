use vstd::prelude::*;

verus! {

/// What a writer does after a failed compare-and-set attempt.
#[derive(Clone, Copy, Debug, PartialEq, Eq, Structural)]
pub enum BackoffAction {
    /// Retry at once.
    Spin,
    /// Give up the rest of the time slice, then retry.
    Yield,
    /// Sleep for the given number of milliseconds, then retry.
    Sleep(u64),
}

/// Tuning of the staged backoff: how many spins before a yield, how many
/// yields before a sleep, and how the sleep grows.
#[derive(Clone, Copy, Debug, PartialEq, Eq, Structural)]
pub struct BackoffPolicy {
    pub spin_limit: u32,
    pub yield_limit: u32,
    pub base_sleep_ms: u64,
    pub max_sleep_ms: u64,
}

/// The sleep taken at the `n`-th sleep of a writer (counting from 0): it grows
/// by `base_sleep_ms` each time, up to `max_sleep_ms`.
pub open spec fn sleep_ms_spec(p: BackoffPolicy, n: nat) -> int {
    let d = p.base_sleep_ms * (n + 1);
    if d <= p.max_sleep_ms {
        d
    } else {
        p.max_sleep_ms as int
    }
}

/// Later sleeps are never shorter than earlier ones.
pub proof fn lemma_sleep_nondecreasing(p: BackoffPolicy, n: nat, k: nat)
    requires
        n <= k,
    ensures
        sleep_ms_spec(p, n) <= sleep_ms_spec(p, k),
{
    assert(p.base_sleep_ms * (n + 1) <= p.base_sleep_ms * (k + 1)) by (nonlinear_arith)
        requires
            n <= k,
            p.base_sleep_ms >= 0,
    ;
}

/// Mathematical model of a backoff state: spins since the last yield, yields
/// since the last sleep, and sleeps taken so far.
pub struct BackoffModel {
    pub spins: nat,
    pub yields: nat,
    pub sleeps: nat,
}

/// One step of the policy from state `m`: the next state and the action.
pub open spec fn step_spec(p: BackoffPolicy, m: BackoffModel) -> (BackoffModel, BackoffAction) {
    if m.spins + 1 < p.spin_limit {
        (BackoffModel { spins: m.spins + 1, ..m }, BackoffAction::Spin)
    } else if m.yields + 1 < p.yield_limit {
        (BackoffModel { spins: 0, yields: m.yields + 1, ..m }, BackoffAction::Yield)
    } else {
        (
            BackoffModel {
                spins: 0,
                yields: 0,
                sleeps: if m.sleeps < u32::MAX { m.sleeps + 1 } else { m.sleeps },
            },
            BackoffAction::Sleep(sleep_ms_spec(p, m.sleeps) as u64),
        )
    }
}

/// The counters of `m` stay below the limits of `p` (a limit of 0 behaves as 1).
pub open spec fn within_limits(p: BackoffPolicy, m: BackoffModel) -> bool {
    &&& m.spins < p.spin_limit || m.spins == 0
    &&& m.yields < p.yield_limit || m.yields == 0
    &&& m.sleeps <= u32::MAX
}

/// The actions of `k` consecutive failed attempts, starting from state `m`.
pub open spec fn trace_spec(p: BackoffPolicy, m: BackoffModel, k: nat) -> Seq<BackoffAction>
    decreases k,
{
    if k == 0 {
        Seq::empty()
    } else {
        seq![step_spec(p, m).1] + trace_spec(p, step_spec(p, m).0, (k - 1) as nat)
    }
}

/// Every failed attempt takes exactly one backoff action.
pub proof fn lemma_trace_len(p: BackoffPolicy, m: BackoffModel, k: nat)
    ensures
        trace_spec(p, m, k).len() == k,
    decreases k,
{
    if k > 0 {
        lemma_trace_len(p, step_spec(p, m).0, (k - 1) as nat);
    }
}

/// The state every writer starts from.
pub open spec fn start_model() -> BackoffModel {
    BackoffModel { spins: 0, yields: 0, sleeps: 0 }
}

impl BackoffPolicy {
    pub fn new(spin_limit: u32, yield_limit: u32, base_sleep_ms: u64, max_sleep_ms: u64) -> (r:
        Self)
        ensures
            r == (BackoffPolicy { spin_limit, yield_limit, base_sleep_ms, max_sleep_ms }),
    {
        BackoffPolicy { spin_limit, yield_limit, base_sleep_ms, max_sleep_ms }
    }

    /// Thirty spins per yield, fifteen yields per sleep, sleeps of 1 ms
    /// growing by 1 ms up to 16 ms.
    pub fn standard() -> (r: Self)
        ensures
            r == (BackoffPolicy { spin_limit: 30, yield_limit: 15, base_sleep_ms: 1, max_sleep_ms: 16 }),
    {
        BackoffPolicy { spin_limit: 30, yield_limit: 15, base_sleep_ms: 1, max_sleep_ms: 16 }
    }

    /// The sleep taken at the `n`-th sleep, saturating at `max_sleep_ms`.
    pub fn sleep_ms(&self, n: u32) -> (r: u64)
        ensures
            r == sleep_ms_spec(*self, n as nat),
    {
        let k: u64 = n as u64 + 1;
        if self.base_sleep_ms == 0 {
            0
        } else if k > self.max_sleep_ms / self.base_sleep_ms {
            proof {
                let b = self.base_sleep_ms as int;
                let m = self.max_sleep_ms as int;
                let q = m / b;
                assert(b * (q + 1) > m) by (nonlinear_arith)
                    requires b > 0, q == m / b;
                assert(b * (k as int) >= b * (q + 1)) by (nonlinear_arith)
                    requires b > 0, k as int >= q + 1;
            }
            self.max_sleep_ms
        } else {
            proof {
                let b = self.base_sleep_ms as int;
                let q = self.max_sleep_ms as int / b;
                assert(b * (k as int) <= b * q) by (nonlinear_arith)
                    requires b > 0, k as int <= q;
                assert(b * q <= self.max_sleep_ms as int) by (nonlinear_arith)
                    requires b > 0, q == self.max_sleep_ms as int / b;
            }
            self.base_sleep_ms * k
        }
    }
}

/// The per-writer state of the staged backoff.
pub struct Backoff {
    spins: u32,
    yields: u32,
    sleeps: u32,
}

impl View for Backoff {
    type V = BackoffModel;

    closed spec fn view(&self) -> BackoffModel {
        BackoffModel {
            spins: self.spins as nat,
            yields: self.yields as nat,
            sleeps: self.sleeps as nat,
        }
    }
}

impl Backoff {
    pub fn new() -> (r: Self)
        ensures
            r@ == start_model(),
    {
        Backoff { spins: 0, yields: 0, sleeps: 0 }
    }

    /// The action after one more failed attempt, and the state advanced past it.
    pub fn step(&mut self, p: &BackoffPolicy) -> (r: BackoffAction)
        requires
            within_limits(*p, old(self)@),
        ensures
            (final(self)@, r) == step_spec(*p, old(self)@),
            within_limits(*p, final(self)@),
    {
        if self.spins + 1 < p.spin_limit {
            self.spins = self.spins + 1;
            BackoffAction::Spin
        } else if self.yields + 1 < p.yield_limit {
            self.spins = 0;
            self.yields = self.yields + 1;
            BackoffAction::Yield
        } else {
            let d = p.sleep_ms(self.sleeps);
            self.spins = 0;
            self.yields = 0;
            if self.sleeps < u32::MAX {
                self.sleeps = self.sleeps + 1;
            }
            BackoffAction::Sleep(d)
        }
    }
}

} // verus!
