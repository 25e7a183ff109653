use vstd::prelude::*;
use vstd::arithmetic::div_mod::{lemma_add_mod_noop, lemma_mod_twice};
use crate::extract::{record_of_container, scan_batch, scan_range};
use crate::pager::{
    LoadMore, Phase, RunLimits, RunState, initial_state, limits_valid, step_load_more, step_scan,
};
use crate::record::{FieldType, RecordModel};

verus! {

/// The sum of the batch sizes.
pub open spec fn total(batches: Seq<nat>) -> nat
    decreases batches.len(),
{
    if batches.len() == 0 {
        0
    } else {
        total(batches.drop_last()) + batches.last()
    }
}

/// The control state of a run whose scans yield the given batches in turn while the
/// load-more control is present and clicks succeed; batches after the run ended are
/// not taken in.
pub open spec fn run_with_control(limits: RunLimits, batches: Seq<nat>) -> RunState
    decreases batches.len(),
{
    if batches.len() == 0 {
        initial_state()
    } else {
        let s = run_with_control(limits, batches.drop_last());
        if s.phase == Phase::Scanning {
            let t = step_scan(limits, s, batches.last());
            if t.phase == Phase::Advancing {
                step_load_more(t, LoadMore::Clicked)
            } else {
                t
            }
        } else {
            s
        }
    }
}

/// While every batch is a whole number of pages and no cap is set, the run keeps
/// scanning and its count is the sum of the batches.
proof fn lemma_whole_pages_continue(limits: RunLimits, p: nat, batches: Seq<nat>)
    requires
        limits.max_records is None,
        limits.page_size is Some,
        p == limits.page_size->0 as nat,
        p > 0,
        forall|i: int| 0 <= i < batches.len() ==> #[trigger] batches[i] % p == 0,
    ensures
        run_with_control(limits, batches) == (RunState { phase: Phase::Scanning, count: total(batches) }),
        total(batches) % p == 0,
    decreases batches.len(),
{
    if batches.len() > 0 {
        let rest = batches.drop_last();
        assert forall|i: int| 0 <= i < rest.len() implies #[trigger] rest[i] % p == 0 by {
            assert(rest[i] == batches[i]);
        }
        lemma_whole_pages_continue(limits, p, rest);
        assert(batches[batches.len() - 1] % p == 0);
        lemma_add_mod_noop(total(rest) as int, batches.last() as int, p as int);
        assert((0int + 0int) % (p as int) == 0);
    }
}

/// With a page size and no cap, when every batch but the last is a whole number of pages
/// and the last is not, the run is still going after each earlier batch, ends after the
/// last one, and holds as many records as all batches together.
pub proof fn lemma_short_page_ends_run(limits: RunLimits, batches: Seq<nat>)
    requires
        limits_valid(limits),
        limits.max_records is None,
        limits.page_size is Some,
        batches.len() > 0,
        forall|i: int|
            0 <= i < batches.len() - 1 ==> #[trigger] batches[i] % (limits.page_size->0 as nat) == 0,
        batches.last() % (limits.page_size->0 as nat) != 0,
    ensures
        forall|j: int|
            0 <= j < batches.len() ==> (#[trigger] run_with_control(limits, batches.subrange(0, j))).phase
                == Phase::Scanning,
        run_with_control(limits, batches) == (RunState { phase: Phase::Done, count: total(batches) }),
{
    let p = limits.page_size->0 as nat;
    assert forall|j: int| 0 <= j < batches.len() implies (#[trigger] run_with_control(
        limits,
        batches.subrange(0, j),
    )).phase == Phase::Scanning by {
        let pre = batches.subrange(0, j);
        assert forall|i: int| 0 <= i < pre.len() implies #[trigger] pre[i] % p == 0 by {
            assert(pre[i] == batches[i]);
        }
        lemma_whole_pages_continue(limits, p, pre);
    }
    let rest = batches.drop_last();
    assert(rest =~= batches.subrange(0, batches.len() - 1));
    assert forall|i: int| 0 <= i < rest.len() implies #[trigger] rest[i] % p == 0 by {
        assert(rest[i] == batches[i]);
    }
    lemma_whole_pages_continue(limits, p, rest);
    lemma_add_mod_noop(total(rest) as int, batches.last() as int, p as int);
    lemma_mod_twice(batches.last() as int, p as int);
}

/// Without a cap, a run whose first scan finds no load-more control takes in exactly one
/// batch and ends normally.
pub proof fn lemma_absent_control_single_batch(limits: RunLimits, batch: nat)
    requires
        limits_valid(limits),
        limits.max_records is None,
    ensures
        ({
            let s = step_scan(limits, initial_state(), batch);
            let end = if s.phase == Phase::Advancing {
                step_load_more(s, LoadMore::Absent)
            } else {
                s
            };
            end == RunState { phase: Phase::Done, count: batch }
        }),
{
}

/// A successful scan of `from .. to` yields one record per container.
proof fn lemma_scan_len(
    kinds: Seq<FieldType>,
    page: Seq<Seq<Seq<Seq<char>>>>,
    from: int,
    to: int,
)
    requires
        from <= to,
        scan_range(kinds, page, from, to) is Some,
    ensures
        scan_range(kinds, page, from, to)->0.len() == to - from,
    decreases to - from,
{
    if from < to {
        lemma_scan_len(kinds, page, from, to - 1);
    }
}

/// A scan of an unchanged page from the cursor that the previous scan left yields no
/// new record.
pub proof fn lemma_rescan_yields_nothing(
    kinds: Seq<FieldType>,
    page: Seq<Seq<Seq<Seq<char>>>>,
    cursor: nat,
)
    requires
        cursor <= page.len(),
        scan_batch(kinds, page, cursor) is Some,
    ensures
        scan_batch(kinds, page, cursor + scan_batch(kinds, page, cursor)->0.len()) == Some(
            Seq::<RecordModel>::empty(),
        ),
{
    lemma_scan_len(kinds, page, cursor as int, page.len() as int);
}

/// A container past the cursor with a field that matched nothing fails the scan.
pub proof fn lemma_missing_field_fails(
    kinds: Seq<FieldType>,
    page: Seq<Seq<Seq<Seq<char>>>>,
    cursor: nat,
    c: int,
    f: int,
)
    requires
        cursor <= c < page.len(),
        0 <= f < page[c].len(),
        page[c][f].len() == 0,
    ensures
        scan_batch(kinds, page, cursor) is None,
{
    assert(record_of_container(kinds, page[c]) is None);
    lemma_scan_fails_from(kinds, page, cursor as int, c, page.len() as int);
}

/// A container in range without a record fails the scan of the range.
proof fn lemma_scan_fails_from(
    kinds: Seq<FieldType>,
    page: Seq<Seq<Seq<Seq<char>>>>,
    from: int,
    c: int,
    to: int,
)
    requires
        from <= c < to,
        record_of_container(kinds, page[c]) is None,
    ensures
        scan_range(kinds, page, from, to) is None,
    decreases to - from,
{
    if c < to - 1 {
        lemma_scan_fails_from(kinds, page, from, c, to - 1);
    }
}

} // verus!
