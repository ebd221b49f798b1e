use crate::app::PeriodMeasure;
use crate::percent::Percent;
use circular_buffer::CircularBuffer;
use vstd::prelude::*;

verus! {

/// How many measures the history holds.
pub const CAPACITY: usize = 20;

/// `circular_buffer::CircularBuffer`, a queue of at most `N` items that
/// gives up its oldest item for a new one when it is full. What is in it
/// is not looked into here.
#[verifier::external_type_specification]
#[verifier::external_body]
#[verifier::reject_recursive_types(T)]
pub struct ExCircularBuffer<const N: usize, T>(CircularBuffer<N, T>);

/// The measures that a history holds, the oldest first.
pub uninterp spec fn held(history: CircularBuffer<20, PeriodMeasure>) -> Seq<PeriodMeasure>;

/// What a history holds once `item` has been pushed behind `before`: at
/// capacity the oldest measure makes room.
pub open spec fn pushed(before: Seq<PeriodMeasure>, item: PeriodMeasure) -> Seq<PeriodMeasure> {
    if before.len() >= CAPACITY {
        before.drop_first().push(item)
    } else {
        before.push(item)
    }
}

/// The measure that a push drives out of a history holding `before`.
pub open spec fn driven_out(before: Seq<PeriodMeasure>) -> Option<PeriodMeasure> {
    if before.len() >= CAPACITY {
        Some(before[0])
    } else {
        None
    }
}

/// What a history holds once all of `items` have been pushed behind
/// `before`, one after the other.
pub open spec fn pushed_all(before: Seq<PeriodMeasure>, items: Seq<PeriodMeasure>) -> Seq<
    PeriodMeasure,
>
    decreases items.len(),
{
    if items.len() == 0 {
        before
    } else {
        pushed(pushed_all(before, items.drop_last()), items.last())
    }
}

/// `CircularBuffer::new`: the buffer it makes holds nothing.
#[verifier::external_body]
pub(crate) fn history_new() -> (history: CircularBuffer<20, PeriodMeasure>)
    ensures
        held(history) == Seq::<PeriodMeasure>::empty(),
{
    CircularBuffer::new()
}

/// `CircularBuffer::len`: the number of items held, which never exceeds
/// the capacity.
#[verifier::external_body]
pub(crate) fn history_len(history: &CircularBuffer<20, PeriodMeasure>) -> (len: usize)
    ensures
        len == held(*history).len(),
        len <= CAPACITY,
{
    history.len()
}

/// `CircularBuffer::push_back`: the item goes to the back; a full buffer
/// first gives up its front item, which is handed back.
#[verifier::external_body]
pub(crate) fn history_push_back(
    history: &mut CircularBuffer<20, PeriodMeasure>,
    item: PeriodMeasure,
) -> (evicted: Option<PeriodMeasure>)
    ensures
        held(*final(history)) == pushed(held(*old(history)), item),
        evicted == driven_out(held(*old(history))),
{
    history.push_back(item)
}

/// `CircularBuffer::clear`: the buffer holds nothing afterwards.
#[verifier::external_body]
pub(crate) fn history_clear(history: &mut CircularBuffer<20, PeriodMeasure>)
    ensures
        held(*final(history)) == Seq::<PeriodMeasure>::empty(),
{
    history.clear()
}

/// `CircularBuffer::to_vec`: the items held, front to back.
#[verifier::external_body]
pub(crate) fn history_to_vec(history: &CircularBuffer<20, PeriodMeasure>) -> (items: Vec<
    PeriodMeasure,
>)
    ensures
        items@ == held(*history),
{
    history.to_vec()
}

/// An empty history.
pub fn new_history() -> (history: CircularBuffer<20, PeriodMeasure>)
    ensures
        held(history) == Seq::<PeriodMeasure>::empty(),
{
    history_new()
}

/// Adds the newest measure to the history and hands back the one that had
/// to leave, if the history was full.
pub fn record(history: &mut CircularBuffer<20, PeriodMeasure>, item: PeriodMeasure) -> (evicted:
    Option<PeriodMeasure>)
    ensures
        held(*final(history)) == pushed(held(*old(history)), item),
        evicted == driven_out(held(*old(history))),
{
    history_push_back(history, item)
}

/// Empties the history.
pub fn clear(history: &mut CircularBuffer<20, PeriodMeasure>)
    ensures
        held(*final(history)) == Seq::<PeriodMeasure>::empty(),
{
    history_clear(history)
}

/// The number of measures in the history.
pub fn len(history: &CircularBuffer<20, PeriodMeasure>) -> (n: usize)
    ensures
        n == held(*history).len(),
        n <= CAPACITY,
{
    history_len(history)
}

/// Whether the history holds nothing.
pub fn is_empty(history: &CircularBuffer<20, PeriodMeasure>) -> (r: bool)
    ensures
        r == (held(*history).len() == 0),
{
    history_len(history) == 0
}

/// The measures of the history, the oldest first.
pub fn measures(history: &CircularBuffer<20, PeriodMeasure>) -> (items: Vec<PeriodMeasure>)
    ensures
        items@ == held(*history),
{
    history_to_vec(history)
}

/// Pushing into an empty history keeps the last `CAPACITY` items, in
/// order.
pub proof fn lemma_pushed_all_keeps_latest(items: Seq<PeriodMeasure>)
    ensures
        pushed_all(Seq::empty(), items) == if items.len() <= CAPACITY {
            items
        } else {
            items.subrange(items.len() - CAPACITY, items.len() as int)
        },
    decreases items.len(),
{
    if items.len() > 0 {
        lemma_pushed_all_keeps_latest(items.drop_last());
    }
}

/// One push more than the history can hold leaves it full, and the measure
/// that is driven out is the first that went in.
pub proof fn lemma_overfill(items: Seq<PeriodMeasure>)
    requires
        items.len() == CAPACITY + 1,
    ensures
        pushed_all(Seq::empty(), items).len() == CAPACITY,
        pushed_all(Seq::empty(), items) == items.drop_first(),
        driven_out(pushed_all(Seq::empty(), items.drop_last())) == Some(items[0]),
        forall|k: int|
            0 <= k < CAPACITY ==> driven_out(
                #[trigger] pushed_all(Seq::empty(), items.subrange(0, k)),
            ) is None,
{
    lemma_pushed_all_keeps_latest(items);
    lemma_pushed_all_keeps_latest(items.drop_last());
    assert forall|k: int| 0 <= k < CAPACITY implies driven_out(
        #[trigger] pushed_all(Seq::empty(), items.subrange(0, k)),
    ) is None by {
        lemma_pushed_all_keeps_latest(items.subrange(0, k));
    }
}

/// The largest CPU share among the measures and `floor`; of shares that
/// tie, the earliest stays.
pub open spec fn max_cpu_of(floor: Percent, items: Seq<PeriodMeasure>) -> Percent
    decreases items.len(),
{
    if items.len() == 0 {
        floor
    } else {
        let before = max_cpu_of(floor, items.drop_last());
        if items.last().cpu_time_percent.le_spec(before) {
            before
        } else {
            items.last().cpu_time_percent
        }
    }
}

/// The largest rate of events among the measures and `floor`.
pub open spec fn max_eps_of(floor: i64, items: Seq<PeriodMeasure>) -> i64
    decreases items.len(),
{
    if items.len() == 0 {
        floor
    } else {
        let before = max_eps_of(floor, items.drop_last());
        if items.last().events_per_sec > before {
            items.last().events_per_sec
        } else {
            before
        }
    }
}

/// The largest average run time among the measures and `floor`.
pub open spec fn max_runtime_of(floor: u64, items: Seq<PeriodMeasure>) -> u64
    decreases items.len(),
{
    if items.len() == 0 {
        floor
    } else {
        let before = max_runtime_of(floor, items.drop_last());
        if items.last().average_runtime_ns > before {
            items.last().average_runtime_ns
        } else {
            before
        }
    }
}

/// The sum of the rates of events of the measures.
pub open spec fn total_eps_of(items: Seq<PeriodMeasure>) -> int
    decreases items.len(),
{
    if items.len() == 0 {
        0
    } else {
        total_eps_of(items.drop_last()) + items.last().events_per_sec
    }
}

/// The sum of the average run times of the measures.
pub open spec fn total_runtime_of(items: Seq<PeriodMeasure>) -> int
    decreases items.len(),
{
    if items.len() == 0 {
        0
    } else {
        total_runtime_of(items.drop_last()) + items.last().average_runtime_ns
    }
}

/// The largest values in a list of measures, none below the floor that
/// was asked for, and the sums from which averages are taken.
#[derive(Clone, Copy, Debug, PartialEq, Eq)]
pub struct GraphStats {
    pub max_cpu: Percent,
    pub max_eps: i64,
    pub max_runtime: u64,
    pub total_eps: i128,
    pub total_runtime: u128,
    pub count: usize,
}

/// The sums stay within sixty-four bits for each measure.
pub proof fn lemma_totals_bounded(items: Seq<PeriodMeasure>)
    ensures
        items.len() * i64::MIN <= total_eps_of(items) <= items.len() * i64::MAX,
        0 <= total_runtime_of(items) <= items.len() * u64::MAX,
    decreases items.len(),
{
    if items.len() > 0 {
        lemma_totals_bounded(items.drop_last());
    }
}

/// The maxima and sums of what the history holds. The maxima start from
/// the floors given: zero for the maxima of the history alone, the maxima
/// so far for those of a whole observation.
pub fn graph_stats(
    history: &CircularBuffer<20, PeriodMeasure>,
    floor_cpu: Percent,
    floor_eps: i64,
    floor_runtime: u64,
) -> (stats: GraphStats)
    ensures
        stats.max_cpu == max_cpu_of(floor_cpu, held(*history)),
        stats.max_eps == max_eps_of(floor_eps, held(*history)),
        stats.max_runtime == max_runtime_of(floor_runtime, held(*history)),
        stats.total_eps == total_eps_of(held(*history)),
        stats.total_runtime == total_runtime_of(held(*history)),
        stats.count == held(*history).len(),
{
    let items = history_to_vec(history);
    let n = history_len(history);
    let mut stats = GraphStats {
        max_cpu: floor_cpu,
        max_eps: floor_eps,
        max_runtime: floor_runtime,
        total_eps: 0,
        total_runtime: 0,
        count: n,
    };
    let mut i: usize = 0;
    while i < items.len()
        invariant
            i <= items.len(),
            items.len() <= CAPACITY,
            stats.count == items.len(),
            stats.max_cpu == max_cpu_of(floor_cpu, items@.subrange(0, i as int)),
            stats.max_eps == max_eps_of(floor_eps, items@.subrange(0, i as int)),
            stats.max_runtime == max_runtime_of(floor_runtime, items@.subrange(0, i as int)),
            stats.total_eps == total_eps_of(items@.subrange(0, i as int)),
            stats.total_runtime == total_runtime_of(items@.subrange(0, i as int)),
        decreases items.len() - i,
    {
        let ghost upto = items@.subrange(0, i + 1);
        assert(upto.drop_last() =~= items@.subrange(0, i as int));
        proof {
            lemma_totals_bounded(items@.subrange(0, i as int));
            let n = i as int;
            assert(n * i64::MAX <= 20 * i64::MAX) by (nonlinear_arith)
                requires
                    0 <= n <= 20,
            ;
            assert(n * i64::MIN >= 20 * i64::MIN) by (nonlinear_arith)
                requires
                    0 <= n <= 20,
            ;
            assert(n * u64::MAX <= 20 * u64::MAX) by (nonlinear_arith)
                requires
                    0 <= n <= 20,
            ;
        }
        let item = items[i];
        if !item.cpu_time_percent.le(&stats.max_cpu) {
            stats.max_cpu = item.cpu_time_percent;
        }
        if item.events_per_sec > stats.max_eps {
            stats.max_eps = item.events_per_sec;
        }
        if item.average_runtime_ns > stats.max_runtime {
            stats.max_runtime = item.average_runtime_ns;
        }
        stats.total_eps = stats.total_eps + item.events_per_sec as i128;
        stats.total_runtime = stats.total_runtime + item.average_runtime_ns as u128;
        i += 1;
    }
    assert(items@.subrange(0, items.len() as int) =~= items@);
    stats
}

} // verus!
