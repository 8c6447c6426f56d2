//! Laws relating the tracker's operations, stated over [`TimestampState`].
use crate::tracker::TimestampState;
use vstd::prelude::*;

verus! {

/// Recording right after installing `f` stores a value that `f` returns, and
/// keeps `f` installed. So where every call of `f` returns `v`, the stored
/// value is exactly `v`.
pub proof fn lemma_record_with_source<F: Fn() -> u64>(
    s: TimestampState<F>,
    f: F,
    v: u64,
    post: TimestampState<F>,
)
    requires
        s.with_source(f).record_step(post),
    ensures
        f.ensures((), post.last),
        post.source == Some(f),
        (forall|r: u64| f.ensures((), r) ==> r == v) ==> post.last == v,
{
}

/// Recording with no time source installed changes nothing.
pub proof fn lemma_record_without_source<F: Fn() -> u64>(
    s: TimestampState<F>,
    post: TimestampState<F>,
)
    requires
        s.source is None,
        s.record_step(post),
    ensures
        post == s,
{
}

/// After the time source is cleared, any run of recordings leaves the stored
/// value as it was before the clear, and no time source comes back.
pub proof fn lemma_cleared_records_keep<F: Fn() -> u64>(
    s: TimestampState<F>,
    run: Seq<TimestampState<F>>,
)
    requires
        run.len() > 0,
        run[0] == s.without_source(),
        forall|i: int| 0 <= i < run.len() - 1 ==> #[trigger] run[i].record_step(run[i + 1]),
    ensures
        forall|i: int|
            0 <= i < run.len() ==> (#[trigger] run[i]).last == s.last && run[i].source is None,
{
    assert forall|i: int| 0 <= i < run.len() implies (#[trigger] run[i]).last == s.last
        && run[i].source is None by {
        lemma_cleared_run_prefix(s, run, i);
    }
}

/// The `n`-th state of a run of recordings after a clear.
proof fn lemma_cleared_run_prefix<F: Fn() -> u64>(
    s: TimestampState<F>,
    run: Seq<TimestampState<F>>,
    n: int,
)
    requires
        0 <= n < run.len(),
        run[0] == s.without_source(),
        forall|i: int| 0 <= i < run.len() - 1 ==> #[trigger] run[i].record_step(run[i + 1]),
    ensures
        run[n].last == s.last,
        run[n].source is None,
    decreases n,
{
    if n > 0 {
        lemma_cleared_run_prefix(s, run, n - 1);
        assert(run[n - 1].record_step(run[n - 1 + 1]));
    }
}

/// Only recording changes the stored value: installing or clearing a time
/// source between two reads leaves what they return the same.
pub proof fn lemma_read_unchanged_without_record<F>(s: TimestampState<F>, f: F)
    ensures
        s.with_source(f).last == s.last,
        s.without_source().last == s.last,
{
}

/// A recording overwrites the stored value: after two recordings with the same
/// source, the value is one that the second call returned, whatever the
/// first one stored.
pub proof fn lemma_record_overwrites<F: Fn() -> u64>(
    s0: TimestampState<F>,
    s1: TimestampState<F>,
    s2: TimestampState<F>,
    f: F,
)
    requires
        s0.source == Some(f),
        s0.record_step(s1),
        s1.record_step(s2),
    ensures
        f.ensures((), s2.last),
        forall|x: u64| (TimestampState { last: x, source: s1.source }).record_step(s2),
{
}

} // verus!
