use crate::app::{measure_of, PeriodMeasure, SortColumn};
use crate::bpf_program::{clone_processes, process_views, BpfProgram, Process, ProcessView, ProgramView};
use crate::helpers::{program_type_name, program_type_to_string, ProgramType};
use crate::sort::{all_wf, arranged, lemma_arranged_permutes, sort_programs, views};
use crate::text::{lowercased, str_contains, text_contains, to_lowercase};
use std::collections::HashMap;
use vstd::prelude::*;

verus! {

broadcast use vstd::std_specs::hash::group_hash_axioms;

/// What the kernel reports of one loaded program.
#[derive(Debug)]
pub struct ProgramRecord {
    pub id: u32,
    pub program_type: ProgramType,
    /// The program's name, or `None` where it could not be read.
    pub name: Option<String>,
    pub run_time_ns: u64,
    pub run_cnt: u64,
}

/// What a [`ProgramRecord`] stands for.
pub struct RecordView {
    pub id: u32,
    pub program_type: ProgramType,
    pub name: Option<Seq<char>>,
    pub run_time_ns: u64,
    pub run_cnt: u64,
}

impl View for ProgramRecord {
    type V = RecordView;

    open spec fn view(&self) -> RecordView {
        RecordView {
            id: self.id,
            program_type: self.program_type,
            name: match self.name {
                Some(name) => Some(name@),
                None => None,
            },
            run_time_ns: self.run_time_ns,
            run_cnt: self.run_cnt,
        }
    }
}

/// The views of a list of records, in order.
pub open spec fn record_views(records: Seq<ProgramRecord>) -> Seq<RecordView> {
    records.map_values(|r: ProgramRecord| r@)
}

/// What one tick hands back.
#[derive(Debug)]
pub struct Tick {
    /// The programs to show, filtered and in order.
    pub items: Vec<BpfProgram>,
    /// The measures of the program under observation, if it is among them.
    pub measure: Option<PeriodMeasure>,
}

impl RecordView {
    /// A record counts when its name could be read and is not empty.
    pub open spec fn named(self) -> bool {
        self.name is Some && self.name->0.len() > 0
    }

    /// The name of the program, empty where it could not be read.
    pub open spec fn name_or_empty(self) -> Seq<char> {
        match self.name {
            Some(name) => name,
            None => Seq::empty(),
        }
    }
}

/// Whether the filter lets a program of this type and name through: an
/// empty filter lets every program through, any other one those whose type
/// or name holds it, letter case set aside.
pub open spec fn filter_admits(filter: Seq<char>, kind: Seq<char>, name: Seq<char>) -> bool {
    ||| filter.len() == 0
    ||| text_contains(lowercased(kind), lowercased(filter))
    ||| text_contains(lowercased(name), lowercased(filter))
}

/// Whether a record makes it into the list.
pub open spec fn kept(filter: Seq<char>, record: RecordView) -> bool {
    record.named() && filter_admits(
        filter,
        program_type_name(record.program_type),
        record.name_or_empty(),
    )
}

/// The place of the last program with this id in the list of the tick
/// before.
pub open spec fn prior_index(previous: Seq<ProgramView>, id: u32) -> Option<int>
    decreases previous.len(),
{
    if previous.len() == 0 {
        None
    } else if previous.last().id == id {
        Some(previous.len() - 1)
    } else {
        prior_index(previous.drop_last(), id)
    }
}

/// The place that `prior_index` gives lies in the list and holds the id;
/// where it gives none, no program of the list has the id.
pub proof fn lemma_prior_index(previous: Seq<ProgramView>, id: u32)
    ensures
        match prior_index(previous, id) {
            Some(k) => 0 <= k < previous.len() && previous[k].id == id,
            None => forall|j: int| 0 <= j < previous.len() ==> (#[trigger] previous[j]).id != id,
        },
    decreases previous.len(),
{
    if previous.len() > 0 && previous.last().id != id {
        let front = previous.drop_last();
        lemma_prior_index(front, id);
        if prior_index(front, id) is None {
            assert forall|j: int| 0 <= j < previous.len() implies (#[trigger] previous[j]).id
                != id by {
                if j < front.len() {
                    assert(previous[j] == front[j]);
                }
            }
        }
    }
}

/// The program with this id as the tick before saw it.
pub open spec fn prior_of(previous: Seq<ProgramView>, id: u32) -> Option<ProgramView> {
    match prior_index(previous, id) {
        Some(k) => Some(previous[k]),
        None => None,
    }
}

/// The processes that the map holds for this id; none where it holds nothing.
pub open spec fn owners(pid_map: Map<u32, Vec<Process>>, id: u32) -> Seq<ProcessView> {
    if pid_map.contains_key(id) {
        process_views(pid_map[id]@)
    } else {
        Seq::empty()
    }
}

/// Whether the earlier sample can stand as the record's past: its counters
/// must not lie ahead of the record's.
pub open spec fn continues(prior: ProgramView, record: RecordView) -> bool {
    prior.run_time_ns <= record.run_time_ns && prior.run_cnt <= record.run_cnt
}

/// The time from `earlier` to `now`, zero where the clock has not advanced.
pub open spec fn elapsed(now_ns: u128, earlier_ns: u128) -> u128 {
    if now_ns >= earlier_ns {
        (now_ns - earlier_ns) as u128
    } else {
        0
    }
}

/// The sample made of a record, of the same program as the tick before saw
/// it, and of the processes that own it.
///
/// With an earlier sample to continue, the `prev_` counters are that
/// sample's counters and the period is the time since it was taken.
/// Without one the program is new: the `prev_` counters equal the current
/// ones and the period is zero, so that nothing is counted as a change.
pub open spec fn sample_of(
    record: RecordView,
    prior: Option<ProgramView>,
    processes: Seq<ProcessView>,
    now_ns: u128,
) -> ProgramView {
    let carried = prior is Some && continues(prior->0, record);
    ProgramView {
        id: record.id,
        bpf_type: program_type_name(record.program_type),
        name: record.name_or_empty(),
        prev_runtime_ns: if carried { prior->0.run_time_ns } else { record.run_time_ns },
        run_time_ns: record.run_time_ns,
        prev_run_cnt: if carried { prior->0.run_cnt } else { record.run_cnt },
        run_cnt: record.run_cnt,
        instant_ns: now_ns,
        period_ns: if carried { elapsed(now_ns, prior->0.instant_ns) } else { 0 },
        processes,
    }
}

/// The samples of one tick in the order of the records: one for each
/// record that is kept.
pub open spec fn samples(
    previous: Seq<ProgramView>,
    records: Seq<RecordView>,
    pid_map: Map<u32, Vec<Process>>,
    filter: Seq<char>,
    now_ns: u128,
) -> Seq<ProgramView>
    decreases records.len(),
{
    if records.len() == 0 {
        Seq::empty()
    } else {
        let front = samples(previous, records.drop_last(), pid_map, filter, now_ns);
        let record = records.last();
        if kept(filter, record) {
            front.push(
                sample_of(record, prior_of(previous, record.id), owners(pid_map, record.id), now_ns),
            )
        } else {
            front
        }
    }
}

/// The first program of the list with this id.
pub open spec fn find_program(items: Seq<ProgramView>, id: u32) -> Option<ProgramView>
    decreases items.len(),
{
    if items.len() == 0 {
        None
    } else if items[0].id == id {
        Some(items[0])
    } else {
        find_program(items.drop_first(), id)
    }
}

/// The measures of the observed program, where one is observed and the
/// list holds it.
pub open spec fn observed_measure(items: Seq<ProgramView>, observed: Option<u32>) -> Option<
    PeriodMeasure,
> {
    match observed {
        Some(id) => match find_program(items, id) {
            Some(program) => Some(measure_of(program)),
            None => None,
        },
        None => None,
    }
}

/// Tells each id of the earlier list the place of its last program.
fn index_previous(previous: &Vec<BpfProgram>) -> (index: HashMap<u32, usize>)
    ensures
        forall|id: u32|
            match #[trigger] prior_index(views(previous@), id) {
                Some(k) => index@.contains_key(id) && index@[id] == k,
                None => !index@.contains_key(id),
            },
{
    let mut index: HashMap<u32, usize> = HashMap::new();
    let mut i: usize = 0;
    while i < previous.len()
        invariant
            i <= previous.len(),
            forall|id: u32|
                match #[trigger] prior_index(views(previous@).subrange(0, i as int), id) {
                    Some(k) => index@.contains_key(id) && index@[id] == k,
                    None => !index@.contains_key(id),
                },
        decreases previous.len() - i,
    {
        let ghost before = views(previous@).subrange(0, i as int);
        let ghost after = views(previous@).subrange(0, i + 1);
        assert(after.drop_last() =~= before);
        index.insert(previous[i].id, i);
        assert forall|id: u32|
            match #[trigger] prior_index(after, id) {
                Some(k) => index@.contains_key(id) && index@[id] == k,
                None => !index@.contains_key(id),
            } by {
            if id != previous[i as int].id {
                assert(prior_index(after, id) == prior_index(before, id));
            }
        }
        i += 1;
    }
    assert(views(previous@).subrange(0, previous.len() as int) =~= views(previous@));
    index
}

/// Whether the filter, already in lower case, lets the program through.
fn admits(filter: &str, needle: &str, kind: &str, name: &str) -> (r: bool)
    requires
        needle@ == lowercased(filter@),
    ensures
        r == filter_admits(filter@, kind@, name@),
{
    if filter.is_empty() {
        return true;
    }
    let low_kind = to_lowercase(kind);
    if str_contains(low_kind.as_str(), needle) {
        return true;
    }
    let low_name = to_lowercase(name);
    str_contains(low_name.as_str(), needle)
}

/// Whether the filter lets a program of this type and name through.
pub fn matches_filter(filter: &str, kind: &str, name: &str) -> (r: bool)
    ensures
        r == filter_admits(filter@, kind@, name@),
{
    let needle = to_lowercase(filter);
    admits(filter, needle.as_str(), kind, name)
}

/// Builds the sample of one record.
pub fn build_sample(
    record: &ProgramRecord,
    prior: Option<&BpfProgram>,
    processes: Vec<Process>,
    now_ns: u128,
) -> (r: BpfProgram)
    ensures
        r@ == sample_of(
            record@,
            match prior {
                Some(p) => Some(p@),
                None => None,
            },
            process_views(processes@),
            now_ns,
        ),
        r@.wf(),
{
    let name = match &record.name {
        Some(name) => name.clone(),
        None => String::new(),
    };
    let mut sample = BpfProgram {
        id: record.id,
        bpf_type: program_type_to_string(record.program_type),
        name,
        prev_runtime_ns: record.run_time_ns,
        run_time_ns: record.run_time_ns,
        prev_run_cnt: record.run_cnt,
        run_cnt: record.run_cnt,
        instant_ns: now_ns,
        period_ns: 0,
        processes,
    };
    if let Some(earlier) = prior {
        if earlier.run_time_ns <= record.run_time_ns && earlier.run_cnt <= record.run_cnt {
            sample.prev_runtime_ns = earlier.run_time_ns;
            sample.prev_run_cnt = earlier.run_cnt;
            sample.period_ns = if now_ns >= earlier.instant_ns {
                now_ns - earlier.instant_ns
            } else {
                0
            };
        }
    }
    sample
}

/// Finds the first program of the list with this id.
pub fn find_by_id(items: &Vec<BpfProgram>, id: u32) -> (r: Option<usize>)
    ensures
        match r {
            Some(k) => k < items.len() && find_program(views(items@), id) == Some(items[k as int]@),
            None => find_program(views(items@), id) is None,
        },
{
    let mut i: usize = 0;
    let ghost all = views(items@);
    assert(all.subrange(0, all.len() as int) =~= all);
    while i < items.len()
        invariant
            i <= items.len(),
            all == views(items@),
            find_program(all, id) == find_program(all.subrange(i as int, all.len() as int), id),
        decreases items.len() - i,
    {
        let ghost tail = all.subrange(i as int, all.len() as int);
        if items[i].id == id {
            return Some(i);
        }
        assert(tail.drop_first() =~= all.subrange(i + 1, all.len() as int));
        i += 1;
    }
    None
}

/// The measures that a program shows.
pub fn measure(program: &BpfProgram) -> (r: PeriodMeasure)
    requires
        program@.wf(),
    ensures
        r == measure_of(program@),
{
    PeriodMeasure {
        cpu_time_percent: program.cpu_time_percent(),
        events_per_sec: program.events_per_second(),
        average_runtime_ns: program.period_average_runtime_ns(),
    }
}

/// One tick of the sampler.
///
/// Turns the kernel's records into samples, each beside the counters that
/// the same program had in `previous`, leaves out the records without a
/// name and those that the filter does not let through, puts the rest in
/// the order asked for, and measures the observed program if it is there.
pub fn sample_tick(
    previous: &Vec<BpfProgram>,
    records: &Vec<ProgramRecord>,
    pid_map: &HashMap<u32, Vec<Process>>,
    filter: &str,
    order: SortColumn,
    observed: Option<u32>,
    now_ns: u128,
) -> (tick: Tick)
    ensures
        views(tick.items@) == arranged(
            order,
            samples(views(previous@), record_views(records@), pid_map@, filter@, now_ns),
        ),
        all_wf(views(tick.items@)),
        tick.measure == observed_measure(views(tick.items@), observed),
{
    let index = index_previous(previous);
    let needle = to_lowercase(filter);
    let mut items: Vec<BpfProgram> = Vec::new();
    let mut i: usize = 0;
    let ghost all = record_views(records@);
    while i < records.len()
        invariant
            i <= records.len(),
            all == record_views(records@),
            needle@ == lowercased(filter@),
            forall|id: u32|
                match #[trigger] prior_index(views(previous@), id) {
                    Some(k) => index@.contains_key(id) && index@[id] == k,
                    None => !index@.contains_key(id),
                },
            views(items@) == samples(
                views(previous@),
                all.subrange(0, i as int),
                pid_map@,
                filter@,
                now_ns,
            ),
            all_wf(views(items@)),
        decreases records.len() - i,
    {
        let record = &records[i];
        let ghost upto = all.subrange(0, i + 1);
        assert(upto.drop_last() =~= all.subrange(0, i as int));
        let ghost before = views(items@);
        let mut keep = false;
        if let Some(name) = &record.name {
            if !name.as_str().is_empty() {
                let kind = program_type_to_string(record.program_type);
                keep = admits(filter, needle.as_str(), kind.as_str(), name.as_str());
            }
        }
        if keep {
            let processes = match pid_map.get(&record.id) {
                Some(found) => clone_processes(found),
                None => Vec::new(),
            };
            assert(process_views(processes@) =~= owners(pid_map@, record.id));
            let sample = match index.get(&record.id) {
                Some(k) => {
                    proof {
                        lemma_prior_index(views(previous@), record.id);
                    }
                    build_sample(record, Some(&previous[*k]), processes, now_ns)
                },
                None => build_sample(record, None, processes, now_ns),
            };
            items.push(sample);
            assert(views(items@) =~= before.push(sample@));
        }
        i += 1;
    }
    assert(all.subrange(0, records.len() as int) =~= all);
    sort_programs(&mut items, order);
    proof {
        let unsorted = samples(views(previous@), all, pid_map@, filter@, now_ns);
        lemma_arranged_wf(order, unsorted);
    }
    let measure = match observed {
        Some(id) => match find_by_id(&items, id) {
            Some(k) => {
                assert(views(items@)[k as int].wf());
                Some(measure(&items[k]))
            },
            None => None,
        },
        None => None,
    };
    Tick { items, measure }
}

/// The ids of a list of programs, in order.
pub open spec fn ids(programs: Seq<ProgramView>) -> Seq<u32> {
    programs.map_values(|p: ProgramView| p.id)
}

/// The ids of the records that have a name, in order.
pub open spec fn named_ids(records: Seq<RecordView>) -> Seq<u32>
    decreases records.len(),
{
    if records.len() == 0 {
        Seq::empty()
    } else {
        let front = named_ids(records.drop_last());
        if records.last().named() {
            front.push(records.last().id)
        } else {
            front
        }
    }
}

/// A sample made without an earlier one to continue is that of a program
/// seen for the first time.
pub proof fn lemma_new_sample_first_seen(
    record: RecordView,
    prior: Option<ProgramView>,
    processes: Seq<ProcessView>,
    now_ns: u128,
)
    requires
        prior is None || !continues(prior->0, record),
    ensures
        sample_of(record, prior, processes, now_ns).first_seen(),
{
}

/// Every sample of a tick has counters that do not run backwards, and
/// those of programs that the tick before did not hold are of programs
/// seen for the first time.
pub proof fn lemma_samples(
    previous: Seq<ProgramView>,
    records: Seq<RecordView>,
    pid_map: Map<u32, Vec<Process>>,
    filter: Seq<char>,
    now_ns: u128,
)
    ensures
        all_wf(samples(previous, records, pid_map, filter, now_ns)),
        forall|k: int|
            0 <= k < samples(previous, records, pid_map, filter, now_ns).len() && prior_of(
                previous,
                (#[trigger] samples(previous, records, pid_map, filter, now_ns)[k]).id,
            ) is None ==> samples(previous, records, pid_map, filter, now_ns)[k].first_seen(),
    decreases records.len(),
{
    if records.len() > 0 {
        lemma_samples(previous, records.drop_last(), pid_map, filter, now_ns);
        let front = samples(previous, records.drop_last(), pid_map, filter, now_ns);
        let all = samples(previous, records, pid_map, filter, now_ns);
        assert forall|k: int| 0 <= k < all.len() implies (#[trigger] all[k]).wf() && (prior_of(
            previous,
            all[k].id,
        ) is None ==> all[k].first_seen()) by {}
    }
}

/// With no filter set, a tick holds one sample for each record that has
/// a name, in the order of the records, whatever the tick before held.
pub proof fn lemma_empty_filter_keeps_all(
    previous: Seq<ProgramView>,
    records: Seq<RecordView>,
    pid_map: Map<u32, Vec<Process>>,
    now_ns: u128,
)
    ensures
        ids(samples(previous, records, pid_map, Seq::empty(), now_ns)) == named_ids(records),
    decreases records.len(),
{
    if records.len() > 0 {
        lemma_empty_filter_keeps_all(previous, records.drop_last(), pid_map, now_ns);
    }
}

/// Setting a filter and taking it away again brings every program back:
/// the tick after the filter is gone holds, in the order asked for, one
/// sample for each record that has a name.
pub proof fn lemma_filter_round_trip(
    previous: Seq<ProgramView>,
    records: Seq<RecordView>,
    pid_map: Map<u32, Vec<Process>>,
    filter: Seq<char>,
    order: SortColumn,
    now_filtered: u128,
    now_restored: u128,
)
    ensures
        ({
            let filtered = arranged(
                order,
                samples(previous, records, pid_map, filter, now_filtered),
            );
            let full = samples(filtered, records, pid_map, Seq::empty(), now_restored);
            let restored = arranged(order, full);
            &&& ids(full) == named_ids(records)
            &&& restored.to_multiset() == full.to_multiset()
            &&& restored.len() == named_ids(records).len()
        }),
{
    let filtered = arranged(order, samples(previous, records, pid_map, filter, now_filtered));
    let full = samples(filtered, records, pid_map, Seq::empty(), now_restored);
    lemma_empty_filter_keeps_all(filtered, records, pid_map, now_restored);
    lemma_arranged_permutes(order, full);
}

/// Arranging a list of well-formed programs leaves them well-formed.
pub proof fn lemma_arranged_wf(order: SortColumn, programs: Seq<ProgramView>)
    requires
        all_wf(programs),
    ensures
        all_wf(arranged(order, programs)),
{
    lemma_arranged_permutes(order, programs);
    let after = arranged(order, programs);
    assert forall|i: int| 0 <= i < after.len() implies (#[trigger] after[i]).wf() by {
        vstd::seq_lib::to_multiset_contains(after, after[i]);
        vstd::seq_lib::to_multiset_contains(programs, after[i]);
    }
}

/// How long to rest before the next tick: what is left of the period once
/// the work of this tick is taken off, and nothing where the work took
/// longer.
pub fn sleep_budget(period_ns: u128, spent_ns: u128) -> (r: u128)
    ensures
        r == if spent_ns >= period_ns { 0 } else { period_ns - spent_ns },
{
    if spent_ns >= period_ns {
        0
    } else {
        period_ns - spent_ns
    }
}

} // verus!
