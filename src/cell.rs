use crate::backoff::{start_model, trace_spec, within_limits, Backoff, BackoffAction, BackoffPolicy};
use vstd::prelude::*;

verus! {

/// Mathematical model of a cell: the live value and how many replacements
/// have been installed since construction.
pub struct CellModel<T> {
    pub value: T,
    pub version: nat,
}

impl<T> CellModel<T> {
    /// The model after one successful replacement by `v`.
    pub open spec fn replaced(self, v: T) -> CellModel<T> {
        CellModel { value: v, version: self.version + 1 }
    }
}

/// The model after installing each of `vs` in order.
pub open spec fn replaced_all<T>(start: CellModel<T>, vs: Seq<T>) -> CellModel<T>
    decreases vs.len(),
{
    if vs.len() == 0 {
        start
    } else {
        replaced_all(start, vs.drop_last()).replaced(vs.last())
    }
}

/// After at least one replacement the live value is the last value installed.
pub proof fn lemma_last_installed_is_live<T>(start: CellModel<T>, vs: Seq<T>)
    requires
        vs.len() > 0,
    ensures
        replaced_all(start, vs).value == vs.last(),
{
}

/// However a set of replacements is ordered, the live value afterwards is one
/// of the values passed to them, never the initial value nor any other.
pub proof fn lemma_any_order_installs_one_of<T>(start: CellModel<T>, vs: Seq<T>, order: Seq<T>)
    requires
        vs.len() > 0,
        order.to_multiset() == vs.to_multiset(),
    ensures
        vs.contains(replaced_all(start, order).value),
{
    broadcast use vstd::seq_lib::group_to_multiset_ensures;

    assert(vs.to_multiset().len() > 0);
    assert(order.len() > 0);
    assert(order.contains(order.last())) by {
        assert(order[order.len() - 1] == order.last());
    }
    assert(order.to_multiset().count(order.last()) > 0);
}

/// At every point of a sequence of replacements the live value is the initial
/// value or one of the values passed to them.
pub proof fn lemma_every_read_is_written<T>(start: CellModel<T>, vs: Seq<T>, i: int)
    requires
        0 <= i <= vs.len(),
    ensures
        replaced_all(start, vs.subrange(0, i)).value == start.value || vs.contains(
            replaced_all(start, vs.subrange(0, i)).value,
        ),
{
    if i > 0 {
        assert(vs.subrange(0, i).last() == vs[i - 1]);
    }
}

/// A read right after `replace(v)` sees `v`.
pub proof fn lemma_read_after_replace<T>(before: CellModel<T>, v: T)
    ensures
        before.replaced(v).value == v,
        before.replaced(v).version == before.version + 1,
{
}

/// The version counts the replacements: it never decreases, and after `k`
/// replacements it has grown by exactly `k`.
pub proof fn lemma_version_counts_replacements<T>(start: CellModel<T>, vs: Seq<T>)
    ensures
        replaced_all(start, vs).version == start.version + vs.len(),
        replaced_all(start, vs).version >= start.version,
    decreases vs.len(),
{
    if vs.len() > 0 {
        lemma_version_counts_replacements(start, vs.drop_last());
    }
}

/// The version never decreases between two points of one sequence of
/// replacements.
pub proof fn lemma_version_monotone<T>(start: CellModel<T>, vs: Seq<T>, i: int, j: int)
    requires
        0 <= i <= j <= vs.len(),
    ensures
        replaced_all(start, vs.subrange(0, i)).version <= replaced_all(
            start,
            vs.subrange(0, j),
        ).version,
{
    lemma_version_counts_replacements(start, vs.subrange(0, i));
    lemma_version_counts_replacements(start, vs.subrange(0, j));
}

/// A writer that loses the race to each of `rivals` backs off once per lost
/// race and then succeeds: its own value is live, the version has advanced
/// once per installed value, and exactly `rivals.len()` backoff actions were
/// taken.
pub proof fn lemma_contended_replace_terminates<T>(
    start: CellModel<T>,
    rivals: Seq<T>,
    v: T,
    policy: BackoffPolicy,
)
    ensures
        replaced_all(start, rivals.push(v)).value == v,
        replaced_all(start, rivals.push(v)).version == start.version + rivals.len() + 1,
        trace_spec(policy, start_model(), rivals.len()).len() == rivals.len(),
{
    lemma_version_counts_replacements(start, rivals.push(v));
    crate::backoff::lemma_trace_len(policy, start_model(), rivals.len());
}

/// A cell that holds one live value together with a version number.
///
/// The value and the version form one composite snapshot: a replacement is
/// conditioned on the version the writer last observed, and installs the new
/// value and the next version in the same step, so no version is ever skipped
/// or claimed twice.
///
/// Mutation takes `&mut self`: owners that share a cell between threads
/// serialise access to it themselves. `try_replace` and `replace_contended`
/// state the compare-and-set protocol and its backoff, including the case in
/// which other writers win the race.
pub struct ConcurrentCell<T> {
    current: T,
    version: u64,
}

impl<T> View for ConcurrentCell<T> {
    type V = CellModel<T>;

    closed spec fn view(&self) -> CellModel<T> {
        CellModel { value: self.current, version: self.version as nat }
    }
}

impl<T> ConcurrentCell<T> {
    /// Installs `initial` as the live value, at version 0.
    pub fn new(initial: T) -> (r: Self)
        ensures
            r@ == (CellModel { value: initial, version: 0 }),
    {
        ConcurrentCell { current: initial, version: 0 }
    }

    /// The version of the live value: the number of replacements so far.
    pub fn version(&self) -> (r: u64)
        ensures
            r == self@.version,
    {
        self.version
    }

    /// Borrows the live value.
    pub fn peek(&self) -> (r: &T)
        ensures
            *r == self@.value,
    {
        &self.current
    }

    /// An independent copy of the live value; the cell is left unchanged.
    pub fn read(&self) -> (r: T)
        where
            T: Clone,
        ensures
            cloned(self@.value, r),
    {
        self.current.clone()
    }

    /// One compare-and-set attempt: installs `new_value` only if the live
    /// snapshot is still the one at version `expected`. On failure the value
    /// is handed back and the cell is unchanged.
    pub fn try_replace(&mut self, expected: u64, new_value: T) -> (r: Result<(), T>)
        requires
            old(self)@.version < u64::MAX,
        ensures
            expected == old(self)@.version ==> r is Ok && final(self)@ == old(self)@.replaced(
                new_value,
            ),
            expected != old(self)@.version ==> r == Err::<(), T>(new_value) && final(self)@ == old(
                self,
            )@,
    {
        if expected == self.version {
            self.current = new_value;
            self.version = self.version + 1;
            Ok(())
        } else {
            Err(new_value)
        }
    }

    /// Installs `new_value` by the optimistic retry loop: read the version,
    /// attempt the compare-and-set, and after a failed attempt back off as
    /// `policy` says and retry from a fresh read.
    ///
    /// Each of `rivals`, in order, is a writer that wins the race between one
    /// read of this writer and its compare-and-set; once they are exhausted
    /// the next attempt succeeds. Returns the backoff action taken after each
    /// failed attempt.
    pub fn replace_contended(&mut self, new_value: T, rivals: Vec<T>, policy: &BackoffPolicy) -> (trace:
        Vec<BackoffAction>)
        requires
            old(self)@.version + rivals@.len() + 1 <= u64::MAX,
        ensures
            final(self)@ == replaced_all(old(self)@, rivals@.push(new_value)),
            trace@ == trace_spec(*policy, start_model(), rivals@.len()),
    {
        let ghost start = self@;
        let ghost all = rivals@;
        let total = rivals.len();
        let ghost n = total as nat;
        let mut rivals = rivals;
        let mut pending = new_value;
        let mut backoff = Backoff::new();
        let mut trace: Vec<BackoffAction> = Vec::new();
        let mut i: usize = 0;
        loop
            invariant_except_break
                i <= n,
                rivals@ == all.subrange(i as int, n as int),
                self@ == replaced_all(start, all.subrange(0, i as int)),
                self@.version == start.version + i,
                pending == new_value,
                within_limits(*policy, backoff@),
                trace@ + trace_spec(*policy, backoff@, (n - i) as nat) == trace_spec(
                    *policy,
                    start_model(),
                    n,
                ),
            invariant
                n == all.len(),
                n == total,
                start.version + n + 1 <= u64::MAX,
            ensures
                self@ == replaced_all(start, all.push(new_value)),
                trace@ == trace_spec(*policy, start_model(), n),
            decreases n - i,
        {
            let seen = self.version;
            if rivals.len() > 0 {
                let rival = rivals.remove(0);
                proof {
                    assert(all.subrange(0, i + 1).drop_last() =~= all.subrange(0, i as int));
                }
                let _ = self.try_replace(seen, rival);
            }
            match self.try_replace(seen, pending) {
                Ok(()) => {
                    proof {
                        assert(all.subrange(0, i as int) =~= all);
                        assert(all.push(new_value).drop_last() =~= all);
                        assert(trace_spec(*policy, backoff@, 0) =~= Seq::empty());
                        assert(trace@ + Seq::empty() =~= trace@);
                    }
                    break;
                },
                Err(back) => {
                    assert(i < n);
                    pending = back;
                    let ghost before = backoff@;
                    let ghost prev = trace@;
                    let a = backoff.step(policy);
                    trace.push(a);
                    proof {
                        assert(trace_spec(*policy, before, (n - i) as nat) == seq![a]
                            + trace_spec(*policy, backoff@, (n - i - 1) as nat));
                        assert(prev + (seq![a] + trace_spec(*policy, backoff@, (n - i - 1) as nat))
                            =~= trace@ + trace_spec(*policy, backoff@, (n - i - 1) as nat));
                        assert(all.subrange(i + 1, n as int) =~= all.subrange(i as int, n as int).drop_first());
                    }
                    i = i + 1;
                },
            }
        }
        trace
    }

    /// Installs `new_value` as the live value and advances the version by one.
    pub fn replace(&mut self, new_value: T)
        requires
            old(self)@.version < u64::MAX,
        ensures
            final(self)@ == old(self)@.replaced(new_value),
    {
        let ghost start = self@;
        let none: Vec<T> = Vec::new();
        let _ = self.replace_contended(new_value, none, &BackoffPolicy::standard());
        proof {
            let vs = Seq::<T>::empty().push(new_value);
            assert(vs.drop_last() =~= Seq::<T>::empty());
            assert(replaced_all(start, Seq::<T>::empty()) == start);
            assert(replaced_all(start, vs) == start.replaced(new_value));
        }
    }
}

} // verus!
