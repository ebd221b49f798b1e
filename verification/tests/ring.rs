use bpftop::app::PeriodMeasure;
use bpftop::percent::Percent;
use bpftop::ring::{clear, graph_stats, is_empty, len, measures, new_history, record, CAPACITY};

fn measure(n: u64) -> PeriodMeasure {
    PeriodMeasure {
        cpu_time_percent: Percent { part: n, whole: 100 },
        events_per_sec: n as i64,
        average_runtime_ns: n * 10,
    }
}

#[test]
fn test_new_history_is_empty() {
    let history = new_history();
    assert!(is_empty(&history));
    assert_eq!(len(&history), 0);
    assert!(measures(&history).is_empty());
    assert_eq!(CAPACITY, 20);
}

#[test]
fn test_history_keeps_the_order() {
    let mut history = new_history();
    assert_eq!(record(&mut history, measure(1)), None);
    assert_eq!(record(&mut history, measure(2)), None);
    assert_eq!(record(&mut history, measure(3)), None);
    assert_eq!(len(&history), 3);
    assert!(!is_empty(&history));
    assert_eq!(measures(&history), vec![measure(1), measure(2), measure(3)]);
}

#[test]
fn test_one_push_too_many_drives_out_the_oldest() {
    let mut history = new_history();
    for n in 0..CAPACITY as u64 {
        assert_eq!(record(&mut history, measure(n)), None);
    }
    assert_eq!(len(&history), CAPACITY);
    assert_eq!(record(&mut history, measure(20)), Some(measure(0)));
    assert_eq!(len(&history), CAPACITY);
    let expected: Vec<PeriodMeasure> = (1..=20).map(measure).collect();
    assert_eq!(measures(&history), expected);
    assert_eq!(record(&mut history, measure(21)), Some(measure(1)));
    assert_eq!(len(&history), CAPACITY);
}

#[test]
fn test_clear_history() {
    let mut history = new_history();
    record(&mut history, measure(1));
    record(&mut history, measure(2));
    clear(&mut history);
    assert!(is_empty(&history));
    assert_eq!(len(&history), 0);
    assert_eq!(record(&mut history, measure(3)), None);
    assert_eq!(measures(&history), vec![measure(3)]);
}

#[test]
fn test_graph_stats() {
    let mut history = new_history();
    record(&mut history, measure(5));
    record(&mut history, measure(9));
    record(&mut history, measure(2));
    let stats = graph_stats(&history, Percent::zero(), 0, 0);
    assert_eq!(stats.max_cpu, Percent { part: 9, whole: 100 });
    assert_eq!(stats.max_eps, 9);
    assert_eq!(stats.max_runtime, 90);
    assert_eq!(stats.total_eps, 16);
    assert_eq!(stats.total_runtime, 160);
    assert_eq!(stats.count, 3);
}

#[test]
fn test_graph_stats_start_from_the_floor() {
    let mut history = new_history();
    record(&mut history, measure(5));
    let stats = graph_stats(&history, Percent { part: 1, whole: 2 }, 100, 7);
    assert_eq!(stats.max_cpu, Percent { part: 1, whole: 2 });
    assert_eq!(stats.max_eps, 100);
    assert_eq!(stats.max_runtime, 50);
    assert_eq!(stats.total_eps, 5);

    let empty = graph_stats(&new_history(), Percent::zero(), 0, 0);
    assert_eq!(empty.max_cpu, Percent { part: 0, whole: 1 });
    assert_eq!(empty.max_eps, 0);
    assert_eq!(empty.total_runtime, 0);
    assert_eq!(empty.count, 0);
}

#[test]
fn test_graph_stats_of_large_measures() {
    let mut history = new_history();
    for _ in 0..CAPACITY {
        record(
            &mut history,
            PeriodMeasure {
                cpu_time_percent: Percent { part: u64::MAX, whole: 1 },
                events_per_sec: i64::MAX,
                average_runtime_ns: u64::MAX,
            },
        );
    }
    let stats = graph_stats(&history, Percent::zero(), 0, 0);
    assert_eq!(stats.total_eps, 20 * i64::MAX as i128);
    assert_eq!(stats.total_runtime, 20 * u64::MAX as u128);
    assert_eq!(stats.max_eps, i64::MAX);
}

#[test]
fn test_ties_keep_the_earlier_cpu_share() {
    let mut history = new_history();
    record(
        &mut history,
        PeriodMeasure { cpu_time_percent: Percent { part: 1, whole: 2 }, events_per_sec: 0, average_runtime_ns: 0 },
    );
    record(
        &mut history,
        PeriodMeasure { cpu_time_percent: Percent { part: 2, whole: 4 }, events_per_sec: 0, average_runtime_ns: 0 },
    );
    let stats = graph_stats(&history, Percent::zero(), 0, 0);
    assert_eq!(stats.max_cpu, Percent { part: 1, whole: 2 });
}
