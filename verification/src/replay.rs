//! The replay tally: what the replay driver counts while it re-dispatches
//! an audit log, and when it stops.

use std::time::Duration;
use vstd::prelude::*;

verus! {

#[derive(Debug, Default, Clone, Copy)]
pub struct ReplayReport {
    /// Entries read from the log.
    pub observed: u64,
    /// Entries whose command the backend accepted.
    pub applied: u64,
    /// Entries whose command the backend refused.
    pub rejected: u64,
    /// Whether replay stopped at an emergency stop in the log.
    pub halted_on_estop: bool,
    /// Wall-clock time the replay took.
    pub wall_elapsed: Duration,
}

/// Every entry read so far was either applied or rejected.
pub open spec fn balanced(r: ReplayReport) -> bool {
    r.observed == r.applied + r.rejected
}

/// `after` is `before` with one more entry tallied: one more observed,
/// one more applied or rejected as the dispatch went, and the halt flag
/// raised where an emergency stop halts replay.
pub open spec fn tallied(
    before: ReplayReport,
    after: ReplayReport,
    dispatched_ok: bool,
    halts: bool,
) -> bool {
    &&& after.observed == before.observed + 1
    &&& after.applied == before.applied + (if dispatched_ok {
        1int
    } else {
        0int
    })
    &&& after.rejected == before.rejected + (if dispatched_ok {
        0int
    } else {
        1int
    })
    &&& after.halted_on_estop == (before.halted_on_estop || halts)
    &&& after.wall_elapsed == before.wall_elapsed
}

impl ReplayReport {
    /// Tally one entry whose command was dispatched (`dispatched_ok` is
    /// whether the backend accepted it). Returns whether replay halts
    /// here: exactly when the entry is an emergency stop and the options
    /// ask to halt on one.
    pub fn record(&mut self, dispatched_ok: bool, is_estop: bool, halt_on_estop: bool) -> (halt:
        bool)
        requires
            old(self).observed < u64::MAX,
            old(self).applied < u64::MAX,
            old(self).rejected < u64::MAX,
        ensures
            halt == (halt_on_estop && is_estop),
            tallied(*old(self), *final(self), dispatched_ok, halt),
    {
        self.observed = self.observed + 1;
        if dispatched_ok {
            self.applied = self.applied + 1;
        } else {
            self.rejected = self.rejected + 1;
        }
        let halt = halt_on_estop && is_estop;
        if halt {
            self.halted_on_estop = true;
        }
        halt
    }
}

/// Tallying keeps the books balanced: if every entry observed so far was
/// applied or rejected, that stays so after one more entry.
pub proof fn lemma_tally_keeps_balance(
    before: ReplayReport,
    after: ReplayReport,
    dispatched_ok: bool,
    halts: bool,
)
    requires
        balanced(before),
        tallied(before, after, dispatched_ok, halts),
    ensures
        balanced(after),
{
}

/// The number of `true` entries in `oks`.
pub open spec fn count_true(oks: Seq<bool>) -> nat
    decreases oks.len(),
{
    if oks.len() == 0 {
        0
    } else {
        count_true(oks.drop_last()) + if oks.last() {
            1nat
        } else {
            0nat
        }
    }
}

/// `reports` is the run of reports a replay goes through: `reports[i + 1]`
/// is `reports[i]` with entry `i` tallied, its dispatch outcome `oks[i]`.
pub open spec fn is_run(reports: Seq<ReplayReport>, oks: Seq<bool>, halts: Seq<bool>) -> bool {
    &&& reports.len() == oks.len() + 1
    &&& halts.len() == oks.len()
    &&& forall|i: int|
        0 <= i < oks.len() ==> tallied(
            #[trigger] reports[i],
            reports[i + 1],
            oks[i],
            halts[i],
        )
}

/// Over a whole replay started from an empty report, every entry taken
/// from the source is observed once, the applied count is the number of
/// dispatches that succeeded, the rejected count the number that failed
/// (a failed dispatch does not stop the run), and the books balance.
pub proof fn lemma_run_tally(reports: Seq<ReplayReport>, oks: Seq<bool>, halts: Seq<bool>)
    requires
        is_run(reports, oks, halts),
        reports[0].observed == 0,
        reports[0].applied == 0,
        reports[0].rejected == 0,
    ensures
        reports.last().observed == oks.len(),
        reports.last().applied == count_true(oks),
        reports.last().rejected == oks.len() - count_true(oks),
        balanced(reports.last()),
    decreases oks.len(),
{
    if oks.len() > 0 {
        let n = oks.len() - 1;
        let r2 = reports.drop_last();
        let o2 = oks.drop_last();
        let h2 = halts.drop_last();
        assert forall|i: int| 0 <= i < o2.len() implies tallied(
            #[trigger] r2[i],
            r2[i + 1],
            o2[i],
            h2[i],
        ) by {
            assert(tallied(reports[i], reports[i + 1], oks[i], halts[i]));
        }
        lemma_run_tally(r2, o2, h2);
        assert(tallied(reports[n], reports[n + 1], oks[n], halts[n]));
        assert(r2.last() == reports[n]);
        assert(o2 =~= oks.drop_last());
    }
}

} // verus!
