use crate::percent::Percent;
use vstd::prelude::*;

verus! {

/// The nanoseconds in one second.
pub const NANOS_PER_SECOND: u128 = 1_000_000_000;

/// A process that holds a BPF program open.
#[derive(Debug, PartialEq, Eq)]
pub struct Process {
    pub pid: i32,
    pub comm: String,
}

/// What a [`Process`] stands for.
pub struct ProcessView {
    pub pid: i32,
    pub comm: Seq<char>,
}

impl View for Process {
    type V = ProcessView;

    open spec fn view(&self) -> ProcessView {
        ProcessView { pid: self.pid, comm: self.comm@ }
    }
}

impl Clone for Process {
    fn clone(&self) -> (r: Self)
        ensures
            r@ == self@,
    {
        Process { pid: self.pid, comm: self.comm.clone() }
    }
}

/// The views of a list of processes, in order.
pub open spec fn process_views(processes: Seq<Process>) -> Seq<ProcessView> {
    processes.map_values(|p: Process| p@)
}

/// Copies a list of processes.
pub fn clone_processes(processes: &Vec<Process>) -> (r: Vec<Process>)
    ensures
        process_views(r@) == process_views(processes@),
{
    let mut copy: Vec<Process> = Vec::new();
    let mut i: usize = 0;
    while i < processes.len()
        invariant
            i <= processes.len(),
            copy.len() == i,
            forall|k: int| 0 <= k < i ==> copy[k]@ == processes[k]@,
        decreases processes.len() - i,
    {
        copy.push(processes[i].clone());
        i += 1;
    }
    copy
}

/// One BPF program as the latest tick saw it, beside the counters it had at
/// the tick before.
///
/// `run_time_ns` and `run_cnt` are cumulative. The `prev_` fields hold the
/// same counters as of the previous tick and `period_ns` the time between
/// the two ticks. Of a program seen for the first time the `prev_` fields
/// equal the current counters and `period_ns` is zero.
#[derive(Debug)]
pub struct BpfProgram {
    pub id: u32,
    pub bpf_type: String,
    pub name: String,
    pub prev_runtime_ns: u64,
    pub run_time_ns: u64,
    pub prev_run_cnt: u64,
    pub run_cnt: u64,
    /// When the sample was taken, in nanoseconds on a monotonic clock.
    pub instant_ns: u128,
    pub period_ns: u128,
    pub processes: Vec<Process>,
}

/// What a [`BpfProgram`] stands for.
pub struct ProgramView {
    pub id: u32,
    pub bpf_type: Seq<char>,
    pub name: Seq<char>,
    pub prev_runtime_ns: u64,
    pub run_time_ns: u64,
    pub prev_run_cnt: u64,
    pub run_cnt: u64,
    pub instant_ns: u128,
    pub period_ns: u128,
    pub processes: Seq<ProcessView>,
}

/// The nearest integer to `n / d`, a tie going upwards.
pub open spec fn round_div(n: int, d: int) -> int {
    (2 * n + d) / (2 * d)
}

impl ProgramView {
    /// The counters never run backwards.
    pub open spec fn wf(self) -> bool {
        &&& self.prev_runtime_ns <= self.run_time_ns
        &&& self.prev_run_cnt <= self.run_cnt
    }

    /// A program that no earlier tick has seen: nothing to compare with.
    pub open spec fn first_seen(self) -> bool {
        &&& self.prev_runtime_ns == self.run_time_ns
        &&& self.prev_run_cnt == self.run_cnt
        &&& self.period_ns == 0
    }

    /// Run time added since the previous tick.
    pub open spec fn runtime_delta(self) -> int {
        self.run_time_ns - self.prev_runtime_ns
    }

    /// Invocations added since the previous tick.
    pub open spec fn run_cnt_delta(self) -> int {
        self.run_cnt - self.prev_run_cnt
    }

    /// Average run time of one invocation over the last period, rounded
    /// down; zero where the program did not run in it.
    pub open spec fn period_average_runtime_ns(self) -> int {
        if self.run_cnt_delta() == 0 {
            0
        } else {
            self.runtime_delta() / self.run_cnt_delta()
        }
    }

    /// Average run time of one invocation since the program was loaded,
    /// rounded down; zero where the program has not run.
    pub open spec fn total_average_runtime_ns(self) -> int {
        if self.run_cnt == 0 {
            0
        } else {
            self.run_time_ns as int / self.run_cnt as int
        }
    }

    /// Runs per second over the last period, rounded to the nearest integer
    /// and held to the range of `i64`.
    pub open spec fn events_per_second(self) -> int {
        if self.period_ns == 0 {
            0
        } else {
            let rate = round_div(self.run_cnt_delta() * NANOS_PER_SECOND, self.period_ns as int);
            if rate > i64::MAX {
                i64::MAX as int
            } else {
                rate
            }
        }
    }

    /// The share of the last period that the program spent running, on
    /// all CPUs together: the run time is not divided by their number.
    pub open spec fn cpu_time_percent(self) -> Percent {
        if self.period_ns == 0 || self.run_time_ns == 0 {
            Percent { part: 0, whole: 1 }
        } else {
            Percent { part: self.runtime_delta() as u64, whole: self.period_ns }
        }
    }
}

impl View for BpfProgram {
    type V = ProgramView;

    open spec fn view(&self) -> ProgramView {
        ProgramView {
            id: self.id,
            bpf_type: self.bpf_type@,
            name: self.name@,
            prev_runtime_ns: self.prev_runtime_ns,
            run_time_ns: self.run_time_ns,
            prev_run_cnt: self.prev_run_cnt,
            run_cnt: self.run_cnt,
            instant_ns: self.instant_ns,
            period_ns: self.period_ns,
            processes: process_views(self.processes@),
        }
    }
}

impl Clone for BpfProgram {
    fn clone(&self) -> (r: Self)
        ensures
            r@ == self@,
    {
        BpfProgram {
            id: self.id,
            bpf_type: self.bpf_type.clone(),
            name: self.name.clone(),
            prev_runtime_ns: self.prev_runtime_ns,
            run_time_ns: self.run_time_ns,
            prev_run_cnt: self.prev_run_cnt,
            run_cnt: self.run_cnt,
            instant_ns: self.instant_ns,
            period_ns: self.period_ns,
            processes: clone_processes(&self.processes),
        }
    }
}

impl PartialEq for BpfProgram {
    /// Two samples are the same program when their ids agree.
    fn eq(&self, other: &Self) -> (r: bool) {
        self.id == other.id
    }
}

impl vstd::std_specs::cmp::PartialEqSpecImpl for BpfProgram {
    open spec fn obeys_eq_spec() -> bool {
        true
    }

    open spec fn eq_spec(&self, other: &Self) -> bool {
        self.id == other.id
    }
}

impl BpfProgram {
    /// Average run time of one invocation over the last period.
    pub fn period_average_runtime_ns(&self) -> (r: u64)
        requires
            self@.wf(),
        ensures
            r == self@.period_average_runtime_ns(),
    {
        if self.run_cnt_delta() == 0 {
            return 0;
        }
        self.runtime_delta() / self.run_cnt_delta()
    }

    /// Average run time of one invocation since the program was loaded.
    pub fn total_average_runtime_ns(&self) -> (r: u64)
        ensures
            r == self@.total_average_runtime_ns(),
    {
        if self.run_cnt == 0 {
            return 0;
        }
        self.run_time_ns / self.run_cnt
    }

    /// Run time added since the previous tick.
    pub fn runtime_delta(&self) -> (r: u64)
        requires
            self@.wf(),
        ensures
            r == self@.runtime_delta(),
    {
        self.run_time_ns - self.prev_runtime_ns
    }

    /// Invocations added since the previous tick.
    pub fn run_cnt_delta(&self) -> (r: u64)
        requires
            self@.wf(),
        ensures
            r == self@.run_cnt_delta(),
    {
        self.run_cnt - self.prev_run_cnt
    }

    /// Invocations per second over the last period.
    pub fn events_per_second(&self) -> (r: i64)
        requires
            self@.wf(),
        ensures
            r == self@.events_per_second(),
    {
        if self.period_ns == 0 {
            return 0;
        }
        let delta: u128 = self.run_cnt_delta() as u128;
        assert(delta * NANOS_PER_SECOND <= 0xffff_ffff_ffff_ffff * NANOS_PER_SECOND)
            by (nonlinear_arith)
            requires
                0 <= delta <= 0xffff_ffff_ffff_ffff,
        ;
        let scaled: u128 = delta * NANOS_PER_SECOND;
        let quotient: u128 = scaled / self.period_ns;
        let remainder: u128 = scaled % self.period_ns;
        let rate: u128 = if remainder >= self.period_ns - remainder {
            quotient + 1
        } else {
            quotient
        };
        proof {
            lemma_round_div(scaled as int, self.period_ns as int);
        }
        if rate > i64::MAX as u128 {
            i64::MAX
        } else {
            rate as i64
        }
    }

    /// The share of the last period that the program spent running.
    pub fn cpu_time_percent(&self) -> (r: Percent)
        requires
            self@.wf(),
        ensures
            r == self@.cpu_time_percent(),
            r.wf(),
    {
        if self.period_ns == 0 || self.run_time_ns == 0 {
            return Percent::zero();
        }
        Percent { part: self.runtime_delta(), whole: self.period_ns }
    }
}

/// A program that is seen for the first time shows no rate at all: no
/// events per second, no share of CPU time, no average run time over the
/// period.
pub proof fn lemma_first_seen_shows_nothing(program: ProgramView)
    requires
        program.first_seen(),
    ensures
        program.events_per_second() == 0,
        program.cpu_time_percent().is_zero(),
        program.period_average_runtime_ns() == 0,
{
}

/// The average run time since loading is the run time divided by the run
/// count, rounded down.
pub proof fn lemma_total_average_is_floor(program: ProgramView)
    requires
        program.run_cnt > 0,
    ensures
        program.total_average_runtime_ns() * program.run_cnt <= program.run_time_ns,
        program.run_time_ns < (program.total_average_runtime_ns() + 1) * program.run_cnt,
{
    let t = program.run_time_ns as int;
    let c = program.run_cnt as int;
    vstd::arithmetic::div_mod::lemma_fundamental_div_mod(t, c);
    vstd::arithmetic::div_mod::lemma_mod_bound(t, c);
    assert((t / c) * c == c * (t / c)) by (nonlinear_arith);
    assert((t / c + 1) * c == c * (t / c) + c) by (nonlinear_arith);
}

/// Where the remainder of that division is smaller than the average, the
/// run time also lies below the average times the run count plus one.
pub proof fn lemma_total_average_bounds(program: ProgramView)
    requires
        program.run_cnt > 0,
        (program.run_time_ns as int) % (program.run_cnt as int)
            < program.total_average_runtime_ns(),
    ensures
        program.total_average_runtime_ns() * program.run_cnt <= program.run_time_ns,
        program.run_time_ns < program.total_average_runtime_ns() * (program.run_cnt + 1),
{
    let t = program.run_time_ns as int;
    let c = program.run_cnt as int;
    lemma_total_average_is_floor(program);
    vstd::arithmetic::div_mod::lemma_fundamental_div_mod(t, c);
    assert((t / c) * (c + 1) == c * (t / c) + t / c) by (nonlinear_arith);
}

/// Rounding to the nearest integer adds one to the floor exactly when the
/// remainder is at least half of the divisor.
pub proof fn lemma_round_div(n: int, d: int)
    requires
        0 <= n,
        0 < d,
    ensures
        round_div(n, d) == n / d + if n % d >= d - n % d { 1int } else { 0int },
        n / d <= round_div(n, d) <= n,
{
    let q = n / d;
    let r = n % d;
    vstd::arithmetic::div_mod::lemma_fundamental_div_mod(n, d);
    assert(0 <= r < d) by {
        vstd::arithmetic::div_mod::lemma_mod_bound(n, d);
    }
    assert(0 <= q) by {
        vstd::arithmetic::div_mod::lemma_div_pos_is_pos(n, d);
    }
    let up = if r >= d - r { 1int } else { 0int };
    let rest = 2 * r + d - up * (2 * d);
    assert(2 * n + d == (q + up) * (2 * d) + rest) by (nonlinear_arith)
        requires
            n == d * q + r,
            rest == 2 * r + d - up * (2 * d),
    ;
    vstd::arithmetic::div_mod::lemma_fundamental_div_mod_converse(2 * n + d, 2 * d, q + up, rest);
    assert(q + up <= n) by (nonlinear_arith)
        requires
            n == d * q + r,
            0 <= r < d,
            d >= 1,
            q >= 0,
            up == (if r >= d - r { 1int } else { 0int }),
    ;
}

} // verus!
