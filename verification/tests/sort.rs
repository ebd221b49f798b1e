use bpftop::app::SortColumn;
use bpftop::bpf_program::BpfProgram;
use bpftop::sort::{program_le, reverse_programs, sort_ascending, sort_programs};
use bpftop::text::{bytes_eq, bytes_le, contains_bytes, str_contains, str_eq, str_le};

fn sample(id: u32, bpf_type: &str, name: &str, runtime: (u64, u64), runs: (u64, u64), period_ns: u128) -> BpfProgram {
    BpfProgram {
        id,
        bpf_type: bpf_type.to_string(),
        name: name.to_string(),
        prev_runtime_ns: runtime.0,
        run_time_ns: runtime.1,
        prev_run_cnt: runs.0,
        run_cnt: runs.1,
        instant_ns: 0,
        period_ns,
        processes: vec![],
    }
}

fn fleet() -> Vec<BpfProgram> {
    vec![
        // id, type, name, run time, run count, period:
        // period avg 50, total avg 20, 10 events/s, 50 % CPU
        sample(3, "Xdp", "gamma", (500, 1000), (40, 50), 1_000),
        // period avg 10, total avg 30, 30 events/s, 30 % CPU
        sample(1, "Kprobe", "alpha", (600, 900), (0, 30), 1_000),
        // period avg 100, total avg 10, 2 events/s, 20 % CPU
        sample(2, "Tracing", "Beta", (0, 200), (18, 20), 1_000),
    ]
}

fn ids(items: &Vec<BpfProgram>) -> Vec<u32> {
    items.iter().map(|p| p.id).collect()
}

fn sorted_ids(order: SortColumn) -> Vec<u32> {
    let mut items = fleet();
    sort_programs(&mut items, order);
    ids(&items)
}

#[test]
fn test_no_order_keeps_the_list() {
    assert_eq!(sorted_ids(SortColumn::NoOrder), vec![3, 1, 2]);
}

#[test]
fn test_sort_by_id() {
    assert_eq!(sorted_ids(SortColumn::Ascending(0)), vec![1, 2, 3]);
    assert_eq!(sorted_ids(SortColumn::Descending(0)), vec![3, 2, 1]);
    // A column that the table does not have goes by the id as well.
    assert_eq!(sorted_ids(SortColumn::Ascending(42)), vec![1, 2, 3]);
}

#[test]
fn test_sort_by_type() {
    assert_eq!(sorted_ids(SortColumn::Ascending(1)), vec![1, 2, 3]);
    assert_eq!(sorted_ids(SortColumn::Descending(1)), vec![3, 2, 1]);
}

#[test]
fn test_sort_by_name_goes_by_bytes() {
    // Capital letters come before small ones.
    assert_eq!(sorted_ids(SortColumn::Ascending(2)), vec![2, 1, 3]);
    assert_eq!(sorted_ids(SortColumn::Descending(2)), vec![3, 1, 2]);
}

#[test]
fn test_sort_by_period_average() {
    assert_eq!(sorted_ids(SortColumn::Ascending(3)), vec![1, 3, 2]);
    assert_eq!(sorted_ids(SortColumn::Descending(3)), vec![2, 3, 1]);
}

#[test]
fn test_sort_by_total_average() {
    assert_eq!(sorted_ids(SortColumn::Ascending(4)), vec![2, 3, 1]);
    assert_eq!(sorted_ids(SortColumn::Descending(4)), vec![1, 3, 2]);
}

#[test]
fn test_sort_by_events_per_second() {
    let items = fleet();
    assert_eq!(items[0].events_per_second(), 10_000_000);
    assert_eq!(items[1].events_per_second(), 30_000_000);
    assert_eq!(items[2].events_per_second(), 2_000_000);
    assert_eq!(sorted_ids(SortColumn::Ascending(5)), vec![2, 3, 1]);
    assert_eq!(sorted_ids(SortColumn::Descending(5)), vec![1, 3, 2]);
}

#[test]
fn test_sort_by_cpu_share() {
    assert_eq!(sorted_ids(SortColumn::Ascending(6)), vec![2, 1, 3]);
    assert_eq!(sorted_ids(SortColumn::Descending(6)), vec![3, 1, 2]);
}

#[test]
fn test_sort_by_cpu_share_with_different_periods() {
    let mut items = vec![
        // 1/3 of the period
        sample(1, "t", "n", (0, 1), (0, 1), 3),
        // 3/10 of the period
        sample(2, "t", "n", (0, 3), (0, 1), 10),
        // 1/2 of the period
        sample(3, "t", "n", (0, 500), (0, 1), 1_000),
    ];
    sort_programs(&mut items, SortColumn::Ascending(6));
    assert_eq!(ids(&items), vec![2, 1, 3]);
}

#[test]
fn test_sorting_keeps_the_order_of_ties() {
    let mut items = vec![
        sample(5, "same", "x", (0, 0), (0, 0), 0),
        sample(4, "same", "x", (0, 0), (0, 0), 0),
        sample(6, "other", "x", (0, 0), (0, 0), 0),
        sample(3, "same", "x", (0, 0), (0, 0), 0),
    ];
    sort_ascending(&mut items, 1);
    assert_eq!(ids(&items), vec![6, 5, 4, 3]);
}

#[test]
fn test_sorting_downwards_turns_ties_round() {
    let mut items = vec![
        sample(5, "same", "x", (0, 0), (0, 0), 0),
        sample(4, "same", "x", (0, 0), (0, 0), 0),
    ];
    sort_programs(&mut items, SortColumn::Descending(1));
    assert_eq!(ids(&items), vec![4, 5]);
    sort_programs(&mut items, SortColumn::Descending(1));
    assert_eq!(ids(&items), vec![5, 4]);
}

#[test]
fn test_sorting_a_sorted_list_changes_nothing() {
    for column in 0..7 {
        let mut items = fleet();
        sort_programs(&mut items, SortColumn::Ascending(column));
        let once = ids(&items);
        sort_programs(&mut items, SortColumn::Ascending(column));
        assert_eq!(ids(&items), once);

        let mut items = fleet();
        sort_programs(&mut items, SortColumn::Descending(column));
        let once = ids(&items);
        sort_programs(&mut items, SortColumn::Descending(column));
        assert_eq!(ids(&items), once);
    }
}

#[test]
fn test_sorting_keeps_every_program() {
    let mut items = fleet();
    items.extend(fleet());
    sort_programs(&mut items, SortColumn::Descending(3));
    assert_eq!(items.len(), 6);
    let mut seen = ids(&items);
    seen.sort();
    assert_eq!(seen, vec![1, 1, 2, 2, 3, 3]);
    assert_eq!(items[0].name, "Beta");
    assert_eq!(items[5].name, "alpha");
}

#[test]
fn test_sorting_nothing() {
    let mut items: Vec<BpfProgram> = vec![];
    sort_programs(&mut items, SortColumn::Descending(6));
    assert!(items.is_empty());
    reverse_programs(&mut items);
    assert!(items.is_empty());
}

#[test]
fn test_reverse_programs() {
    let mut items = fleet();
    reverse_programs(&mut items);
    assert_eq!(ids(&items), vec![2, 1, 3]);
}

#[test]
fn test_program_le() {
    let items = fleet();
    assert!(program_le(0, &items[1], &items[0]));
    assert!(!program_le(0, &items[0], &items[1]));
    assert!(program_le(2, &items[2], &items[1]));
    assert!(program_le(6, &items[0], &items[0]));
}

#[test]
fn test_bytes_le() {
    assert!(bytes_le(b"", b""));
    assert!(bytes_le(b"", b"a"));
    assert!(!bytes_le(b"a", b""));
    assert!(bytes_le(b"abc", b"abd"));
    assert!(!bytes_le(b"abd", b"abc"));
    assert!(bytes_le(b"ab", b"abc"));
    assert!(!bytes_le(b"abc", b"ab"));
    assert!(bytes_le(b"abc", b"abc"));
    assert!(bytes_le(&[0x7f], &[0x80]));
}

#[test]
fn test_str_le_agrees_with_std() {
    let words = ["", "a", "B", "ab", "abc", "é", "z", "日本", "Zebra"];
    for a in words {
        for b in words {
            assert_eq!(str_le(a, b), a <= b, "{a:?} <= {b:?}");
        }
    }
}

#[test]
fn test_str_eq() {
    assert!(str_eq("bpf", "bpf"));
    assert!(!str_eq("bpf", "bpF"));
    assert!(!str_eq("bpf", "bpf2"));
    assert!(str_eq("", ""));
    assert!(bytes_eq(&[1, 2], &[1, 2]));
    assert!(!bytes_eq(&[1, 2], &[1]));
}

#[test]
fn test_contains_bytes() {
    assert!(contains_bytes(b"hello", b""));
    assert!(contains_bytes(b"", b""));
    assert!(!contains_bytes(b"", b"a"));
    assert!(contains_bytes(b"hello", b"hello"));
    assert!(contains_bytes(b"hello", b"ell"));
    assert!(contains_bytes(b"hello", b"lo"));
    assert!(!contains_bytes(b"hello", b"lol"));
    assert!(!contains_bytes(b"hello", b"hello!"));
    assert!(contains_bytes(b"aaab", b"aab"));
}

#[test]
fn test_str_contains_agrees_with_std() {
    let hays = ["", "kprobe", "trace point", "héllo wörld", "日本語"];
    let needles = ["", "k", "probe", "point ", "é", "ö", "本", "x", "kprobes"];
    for hay in hays {
        for needle in needles {
            assert_eq!(str_contains(hay, needle), hay.contains(needle), "{hay:?} / {needle:?}");
        }
    }
}
