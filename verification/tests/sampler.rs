use bpftop::app::{PeriodMeasure, SortColumn};
use bpftop::bpf_program::{BpfProgram, Process};
use bpftop::helpers::ProgramType;
use bpftop::percent::Percent;
use bpftop::sampler::{
    build_sample, find_by_id, matches_filter, measure, sample_tick, sleep_budget, ProgramRecord,
};
use std::collections::HashMap;

fn record(id: u32, program_type: ProgramType, name: &str, run_time_ns: u64, run_cnt: u64) -> ProgramRecord {
    ProgramRecord { id, program_type, name: Some(name.to_string()), run_time_ns, run_cnt }
}

fn no_pids() -> HashMap<u32, Vec<Process>> {
    HashMap::new()
}

fn ids(items: &Vec<BpfProgram>) -> Vec<u32> {
    items.iter().map(|p| p.id).collect()
}

#[test]
fn test_first_tick_reports_no_rates() {
    let records = vec![record(1, ProgramType::Kprobe, "probe", 5_000, 10)];
    let tick = sample_tick(&vec![], &records, &no_pids(), "", SortColumn::NoOrder, None, 123);
    assert_eq!(tick.items.len(), 1);
    let program = &tick.items[0];
    assert_eq!(program.id, 1);
    assert_eq!(program.bpf_type, "Kprobe");
    assert_eq!(program.name, "probe");
    assert_eq!(program.run_time_ns, 5_000);
    assert_eq!(program.run_cnt, 10);
    assert_eq!(program.prev_runtime_ns, 5_000);
    assert_eq!(program.prev_run_cnt, 10);
    assert_eq!(program.period_ns, 0);
    assert_eq!(program.instant_ns, 123);
    assert!(program.processes.is_empty());
    assert_eq!(program.events_per_second(), 0);
    assert_eq!(program.period_average_runtime_ns(), 0);
    assert_eq!(program.cpu_time_percent(), Percent { part: 0, whole: 1 });
    assert_eq!(program.total_average_runtime_ns(), 500);
    assert_eq!(tick.measure, None);
}

#[test]
fn test_second_tick_reports_the_change() {
    let first = sample_tick(
        &vec![],
        &vec![record(1, ProgramType::Kprobe, "probe", 5_000, 10)],
        &no_pids(),
        "",
        SortColumn::NoOrder,
        None,
        1_000,
    );
    let second = sample_tick(
        &first.items,
        &vec![record(1, ProgramType::Kprobe, "probe", 9_000, 30)],
        &no_pids(),
        "",
        SortColumn::NoOrder,
        Some(1),
        2_000_001_000,
    );
    let program = &second.items[0];
    assert_eq!(program.prev_runtime_ns, 5_000);
    assert_eq!(program.prev_run_cnt, 10);
    assert_eq!(program.period_ns, 2_000_000_000);
    assert_eq!(program.runtime_delta(), 4_000);
    assert_eq!(program.run_cnt_delta(), 20);
    assert_eq!(program.period_average_runtime_ns(), 200);
    assert_eq!(program.events_per_second(), 10);
    assert_eq!(
        second.measure,
        Some(PeriodMeasure {
            cpu_time_percent: Percent { part: 4_000, whole: 2_000_000_000 },
            events_per_sec: 10,
            average_runtime_ns: 200,
        })
    );
}

#[test]
fn test_records_without_a_name_are_left_out() {
    let records = vec![
        record(1, ProgramType::Xdp, "", 1, 1),
        ProgramRecord { id: 2, program_type: ProgramType::Xdp, name: None, run_time_ns: 1, run_cnt: 1 },
        record(3, ProgramType::Xdp, "kept", 1, 1),
    ];
    let tick = sample_tick(&vec![], &records, &no_pids(), "", SortColumn::NoOrder, None, 0);
    assert_eq!(ids(&tick.items), vec![3]);
}

#[test]
fn test_filter_matches_type_or_name_in_any_case() {
    let records = vec![
        record(1, ProgramType::Kprobe, "sys_enter", 1, 1),
        record(2, ProgramType::Tracepoint, "my_KPROBE_helper", 1, 1),
        record(3, ProgramType::Xdp, "firewall", 1, 1),
    ];
    let tick = sample_tick(&vec![], &records, &no_pids(), "kProBe", SortColumn::NoOrder, None, 0);
    assert_eq!(ids(&tick.items), vec![1, 2]);
    let tick = sample_tick(&vec![], &records, &no_pids(), "XDP", SortColumn::NoOrder, None, 0);
    assert_eq!(ids(&tick.items), vec![3]);
    let tick = sample_tick(&vec![], &records, &no_pids(), "nothing", SortColumn::NoOrder, None, 0);
    assert!(tick.items.is_empty());
}

#[test]
fn test_filter_round_trip_restores_every_program() {
    let records = vec![
        record(3, ProgramType::Kprobe, "c", 30, 3),
        record(1, ProgramType::Xdp, "a", 10, 1),
        record(2, ProgramType::Kprobe, "b", 20, 2),
    ];
    let order = SortColumn::Ascending(0);
    let all = sample_tick(&vec![], &records, &no_pids(), "", order, None, 1);
    assert_eq!(ids(&all.items), vec![1, 2, 3]);
    let filtered = sample_tick(&all.items, &records, &no_pids(), "xdp", order, None, 2);
    assert_eq!(ids(&filtered.items), vec![1]);
    let restored = sample_tick(&filtered.items, &records, &no_pids(), "", order, None, 3);
    assert_eq!(ids(&restored.items), vec![1, 2, 3]);
    // The programs that the filter had hidden are seen anew.
    assert_eq!(restored.items[1].period_ns, 0);
    assert_eq!(restored.items[0].period_ns, 1);
}

#[test]
fn test_matches_filter() {
    assert!(matches_filter("", "Kprobe", "anything"));
    assert!(matches_filter("KPROBE", "Kprobe", "x"));
    assert!(matches_filter("pro", "Xdp", "my_PROG"));
    assert!(!matches_filter("tc", "Xdp", "prog"));
    assert!(matches_filter("ÄB", "Xdp", "xäby"));
}

#[test]
fn test_tick_sorts_the_samples() {
    let records = vec![
        record(2, ProgramType::Xdp, "b", 0, 0),
        record(3, ProgramType::Xdp, "c", 0, 0),
        record(1, ProgramType::Xdp, "a", 0, 0),
    ];
    let tick = sample_tick(&vec![], &records, &no_pids(), "", SortColumn::Descending(2), None, 0);
    assert_eq!(ids(&tick.items), vec![3, 2, 1]);
    let tick = sample_tick(&vec![], &records, &no_pids(), "", SortColumn::NoOrder, None, 0);
    assert_eq!(ids(&tick.items), vec![2, 3, 1]);
}

#[test]
fn test_tick_attaches_the_owning_processes() {
    let mut pid_map = no_pids();
    pid_map.insert(
        7,
        vec![
            Process { pid: 10, comm: "first".to_string() },
            Process { pid: 11, comm: "second".to_string() },
        ],
    );
    let records = vec![record(7, ProgramType::Xdp, "owned", 0, 0), record(8, ProgramType::Xdp, "free", 0, 0)];
    let tick = sample_tick(&vec![], &records, &pid_map, "", SortColumn::NoOrder, None, 0);
    assert_eq!(
        tick.items[0].processes,
        vec![
            Process { pid: 10, comm: "first".to_string() },
            Process { pid: 11, comm: "second".to_string() },
        ]
    );
    assert!(tick.items[1].processes.is_empty());
}

#[test]
fn test_counters_that_ran_backwards_start_anew() {
    let first = sample_tick(
        &vec![],
        &vec![record(1, ProgramType::Xdp, "reloaded", 9_000, 90)],
        &no_pids(),
        "",
        SortColumn::NoOrder,
        None,
        10,
    );
    let second = sample_tick(
        &first.items,
        &vec![record(1, ProgramType::Xdp, "reloaded", 100, 1)],
        &no_pids(),
        "",
        SortColumn::NoOrder,
        None,
        20,
    );
    let program = &second.items[0];
    assert_eq!(program.prev_runtime_ns, 100);
    assert_eq!(program.prev_run_cnt, 1);
    assert_eq!(program.period_ns, 0);
    assert_eq!(program.runtime_delta(), 0);
}

#[test]
fn test_last_of_two_earlier_samples_counts() {
    let earlier = vec![
        BpfProgram {
            id: 1,
            bpf_type: "Xdp".to_string(),
            name: "old".to_string(),
            prev_runtime_ns: 0,
            run_time_ns: 10,
            prev_run_cnt: 0,
            run_cnt: 1,
            instant_ns: 100,
            period_ns: 0,
            processes: vec![],
        },
        BpfProgram {
            id: 1,
            bpf_type: "Xdp".to_string(),
            name: "newer".to_string(),
            prev_runtime_ns: 0,
            run_time_ns: 20,
            prev_run_cnt: 0,
            run_cnt: 2,
            instant_ns: 200,
            period_ns: 0,
            processes: vec![],
        },
    ];
    let tick = sample_tick(
        &earlier,
        &vec![record(1, ProgramType::Xdp, "now", 50, 5)],
        &no_pids(),
        "",
        SortColumn::NoOrder,
        None,
        1_000,
    );
    assert_eq!(tick.items[0].prev_runtime_ns, 20);
    assert_eq!(tick.items[0].prev_run_cnt, 2);
    assert_eq!(tick.items[0].period_ns, 800);
}

#[test]
fn test_clock_that_did_not_advance_gives_no_period() {
    let first = sample_tick(
        &vec![],
        &vec![record(1, ProgramType::Xdp, "p", 10, 1)],
        &no_pids(),
        "",
        SortColumn::NoOrder,
        None,
        500,
    );
    let second = sample_tick(
        &first.items,
        &vec![record(1, ProgramType::Xdp, "p", 20, 2)],
        &no_pids(),
        "",
        SortColumn::NoOrder,
        None,
        400,
    );
    assert_eq!(second.items[0].period_ns, 0);
    assert_eq!(second.items[0].prev_runtime_ns, 10);
    assert_eq!(second.items[0].events_per_second(), 0);
}

#[test]
fn test_observed_program_that_is_filtered_out_is_not_measured() {
    let records = vec![record(1, ProgramType::Xdp, "a", 0, 0), record(2, ProgramType::Kprobe, "b", 0, 0)];
    let tick = sample_tick(&vec![], &records, &no_pids(), "kprobe", SortColumn::NoOrder, Some(1), 0);
    assert_eq!(tick.measure, None);
    let tick = sample_tick(&vec![], &records, &no_pids(), "kprobe", SortColumn::NoOrder, Some(2), 0);
    assert_eq!(
        tick.measure,
        Some(PeriodMeasure {
            cpu_time_percent: Percent { part: 0, whole: 1 },
            events_per_sec: 0,
            average_runtime_ns: 0,
        })
    );
}

#[test]
fn test_build_sample_and_measure() {
    let earlier = BpfProgram {
        id: 4,
        bpf_type: "Xdp".to_string(),
        name: "p".to_string(),
        prev_runtime_ns: 0,
        run_time_ns: 1_000,
        prev_run_cnt: 0,
        run_cnt: 10,
        instant_ns: 0,
        period_ns: 0,
        processes: vec![],
    };
    let now = record(4, ProgramType::Xdp, "p", 251_000, 15);
    let sample = build_sample(&now, Some(&earlier), vec![], 1_000_000);
    assert_eq!(sample.prev_runtime_ns, 1_000);
    assert_eq!(sample.prev_run_cnt, 10);
    assert_eq!(sample.period_ns, 1_000_000);
    assert_eq!(
        measure(&sample),
        PeriodMeasure {
            cpu_time_percent: Percent { part: 250_000, whole: 1_000_000 },
            events_per_sec: 5_000,
            average_runtime_ns: 50_000,
        }
    );
    let fresh = build_sample(&now, None, vec![], 1_000_000);
    assert_eq!(fresh.prev_runtime_ns, 251_000);
    assert_eq!(fresh.period_ns, 0);
}

#[test]
fn test_find_by_id() {
    let tick = sample_tick(
        &vec![],
        &vec![record(5, ProgramType::Xdp, "a", 0, 0), record(6, ProgramType::Xdp, "b", 0, 0)],
        &no_pids(),
        "",
        SortColumn::NoOrder,
        None,
        0,
    );
    assert_eq!(find_by_id(&tick.items, 6), Some(1));
    assert_eq!(find_by_id(&tick.items, 5), Some(0));
    assert_eq!(find_by_id(&tick.items, 7), None);
}

#[test]
fn test_sleep_budget() {
    assert_eq!(sleep_budget(1_000_000_000, 250_000_000), 750_000_000);
    assert_eq!(sleep_budget(1_000_000_000, 1_000_000_000), 0);
    assert_eq!(sleep_budget(1_000_000_000, 3_000_000_000), 0);
    assert_eq!(sleep_budget(5, 0), 5);
}
