//! The measurement itself: which containers to start with which options,
//! what to make of each run, and what to report.
//!
//! The work outside (starting and ending containers, invoking the program)
//! is done by the caller. The library decides: each state names what to do
//! next, and takes what came of it to the state after.

use crate::error::{rule, Error, ErrorKind, ErrorKindView, ErrorView};
use crate::run::{invocation_result, Invocation, InvocationView, Resolving, ResolvingView};
use crate::text::{
    decimal, decimal_string, join, optional, same_text, signed_decimal, signed_string, strings,
};
use vstd::prelude::*;

verus! {

/// The header of the report.
pub open spec fn header_of() -> Seq<char> {
    "program; run; cpus; duration;"@
}

/// The numerals of the core indices `0, 1, ..` below `count`.
pub open spec fn core_indices(count: nat) -> Seq<Seq<char>> {
    Seq::new(count, |i: int| decimal(i as nat))
}

/// The core indices below `cpu_count`, joined by commas: the set of
/// processors that a container is pinned to.
pub open spec fn cpuset_of(cpu_count: u32) -> Seq<char> {
    join(core_indices(cpu_count as nat), ","@)
}

/// The options for a container of a sweep: the processors it is pinned
/// to, the published port, and the environment of the server.
pub open spec fn measure_options_of(cpu_count: u32, port: u16) -> Seq<Seq<char>> {
    seq![
        "--cpuset-cpus"@,
        cpuset_of(cpu_count),
        "-p"@,
        decimal(port as nat),
        "-e"@,
        "MAX_CPUS="@ + decimal(cpu_count as nat),
        "-e"@,
        "CDS_PORT="@ + decimal(port as nat),
        "-e"@,
        "RUST_LOG=debug"@,
        "-e"@,
        "REST_PORT="@ + decimal(port as nat),
    ]
}

/// The options for the container of a single run.
pub open spec fn single_options_of(cpu_count: u32, port: u16) -> Seq<Seq<char>> {
    seq![
        "--cpuset-cpus"@,
        cpuset_of(cpu_count),
        "-p"@,
        decimal(port as nat),
        "-e"@,
        "MAX_CPUS="@ + decimal(cpu_count as nat),
        "-e"@,
        "REST_PORT="@ + decimal(port as nat),
    ]
}

/// One line of the report: program, run, number of processors, duration.
pub open spec fn record_of(program: Seq<char>, run: u32, cpu_count: u32, duration: u64) -> Seq<
    char,
> {
    program + "; "@ + decimal(run as nat) + "; "@ + decimal(cpu_count as nat) + "; "@ + decimal(
        duration as nat,
    )
}

/// The full account of a single run.
pub open spec fn report_of(program: Seq<char>, run: InvocationView) -> Seq<char> {
    "Ran program "@ + program + "\nExit status: "@ + signed_decimal(run.2 as int)
        + "\nDuration: "@ + decimal(run.3 as nat) + " micro seconds\nstdout:\n"@ + rule() + "\n"@
        + run.0 + rule() + "\nstderr:\n"@ + rule() + "\n"@ + run.1 + rule()
}

/// The output is what was expected, where anything was.
pub open spec fn as_expected(expected: Option<Seq<char>>, stdout: Seq<char>) -> bool {
    match expected {
        Some(e) => e == stdout,
        None => true,
    }
}

/// The failure of a run whose output is not the expected one.
pub open spec fn mismatch(expected: Option<Seq<char>>, stdout: Seq<char>) -> ErrorView {
    ErrorView::bare(
        ErrorKindView::OutputMismatch {
            actual: stdout,
            expected: match expected {
                Some(e) => e,
                None => Seq::empty(),
            },
        },
    )
}

/// What is to be measured: a program, on containers of an image, `runs`
/// times with each of the numbers of processors.
#[derive(Debug, Clone, PartialEq, Eq)]
pub struct Sweep {
    pub program: String,
    pub image: String,
    pub port: u16,
    pub runs: u32,
    pub cpu_counts: Vec<u32>,
    pub expected: Option<String>,
}

/// The mathematical value of a `Sweep`.
pub struct SweepView {
    pub program: Seq<char>,
    pub image: Seq<char>,
    pub port: u16,
    pub runs: u32,
    pub cpu_counts: Seq<u32>,
    pub expected: Option<Seq<char>>,
}

impl View for Sweep {
    type V = SweepView;

    open spec fn view(&self) -> SweepView {
        SweepView {
            program: self.program@,
            image: self.image@,
            port: self.port,
            runs: self.runs,
            cpu_counts: self.cpu_counts@,
            expected: optional(self.expected),
        }
    }
}

/// One sample of a sweep: a run, and the place of a number of processors
/// in the list.
#[derive(Debug, Clone, Copy, PartialEq, Eq)]
pub struct Slot {
    pub run: u32,
    pub index: usize,
}

impl SweepView {
    /// The number of samples.
    pub open spec fn slots(self) -> nat {
        self.runs as nat * self.cpu_counts.len()
    }

    /// The slot is one of the sweep.
    pub open spec fn holds(self, slot: Slot) -> bool {
        slot.run < self.runs && slot.index < self.cpu_counts.len()
    }

    /// The place of a slot in the order of the sweep: run by run, and
    /// within a run in the order of the list.
    pub open spec fn number(self, slot: Slot) -> nat {
        slot.run as nat * self.cpu_counts.len() + slot.index as nat
    }

    /// The slot at place `k`.
    pub open spec fn slot_at(self, k: nat) -> Slot {
        Slot {
            run: (k / self.cpu_counts.len()) as u32,
            index: (k % self.cpu_counts.len()) as usize,
        }
    }

    /// The first slot, where there is any.
    pub open spec fn first(self) -> Option<Slot> {
        if self.runs > 0 && self.cpu_counts.len() > 0 {
            Some(Slot { run: 0, index: 0 })
        } else {
            None
        }
    }

    /// The slot after `slot`, where there is one.
    pub open spec fn after(self, slot: Slot) -> Option<Slot> {
        if slot.index + 1 < self.cpu_counts.len() {
            Some(Slot { run: slot.run, index: (slot.index + 1) as usize })
        } else if slot.run + 1 < self.runs {
            Some(Slot { run: (slot.run + 1) as u32, index: 0 })
        } else {
            None
        }
    }

    /// The number of processors of a slot.
    pub open spec fn cpu_count(self, slot: Slot) -> u32 {
        self.cpu_counts[slot.index as int]
    }

    /// The lines to print once the sample of a slot is complete: the
    /// header before the first record and nowhere else, then the record.
    pub open spec fn lines(self, slot: Slot, duration: u64) -> Seq<Seq<char>> {
        let record = record_of(self.program, slot.run, self.cpu_count(slot), duration);
        if slot.run == 0 && slot.index == 0 {
            seq![header_of(), record]
        } else {
            seq![record]
        }
    }

    /// What to do at a slot, or after the last.
    pub open spec fn step(self, slot: Option<Slot>) -> StepView {
        match slot {
            Some(slot) => StepView::Start(StartingView { plan: self, slot }),
            None => StepView::Done,
        }
    }
}

/// The mathematical value of a `Starting`.
pub struct StartingView {
    pub plan: SweepView,
    pub slot: Slot,
}

/// The mathematical value of an `Invoking`.
pub struct InvokingView {
    pub plan: SweepView,
    pub slot: Slot,
    pub container: Seq<char>,
}

/// The mathematical value of a `Stopping`.
pub struct StoppingView {
    pub plan: SweepView,
    pub slot: Slot,
    pub container: Seq<char>,
    pub duration: u64,
}

/// The mathematical value of a `Step`.
pub enum StepView {
    Start(StartingView),
    Done,
}

/// A sweep that is about to start the container of a slot.
#[derive(Debug)]
pub struct Starting {
    plan: Sweep,
    slot: Slot,
}

/// A sweep whose container is up and whose program is to be invoked.
#[derive(Debug)]
pub struct Invoking {
    plan: Sweep,
    slot: Slot,
    container: String,
}

/// A sweep whose run went well and whose container is to be removed.
#[derive(Debug)]
pub struct Stopping {
    plan: Sweep,
    slot: Slot,
    container: String,
    duration: u64,
}

/// What a sweep does next: start a container, or nothing more.
#[derive(Debug)]
pub enum Step {
    Start(Starting),
    Done,
}

impl View for Starting {
    type V = StartingView;

    closed spec fn view(&self) -> StartingView {
        StartingView { plan: self.plan@, slot: self.slot }
    }
}

impl View for Invoking {
    type V = InvokingView;

    closed spec fn view(&self) -> InvokingView {
        InvokingView { plan: self.plan@, slot: self.slot, container: self.container@ }
    }
}

impl View for Stopping {
    type V = StoppingView;

    closed spec fn view(&self) -> StoppingView {
        StoppingView {
            plan: self.plan@,
            slot: self.slot,
            container: self.container@,
            duration: self.duration,
        }
    }
}

impl View for Step {
    type V = StepView;

    open spec fn view(&self) -> StepView {
        match *self {
            Step::Start(starting) => StepView::Start(starting@),
            Step::Done => StepView::Done,
        }
    }
}

impl StartingView {
    /// What the attempt to start the container leads to.
    pub open spec fn started(self, result: Result<Seq<char>, ErrorView>) -> Result<
        InvokingView,
        ErrorView,
    > {
        match result {
            Ok(container) => Ok(InvokingView { plan: self.plan, slot: self.slot, container }),
            Err(e) => Err(e.chain("Starting of measurement container failed"@)),
        }
    }
}

impl InvokingView {
    /// What the invocation leads to: a run that failed, that ended with a
    /// status other than zero or that printed something unexpected ends
    /// the sweep; any other is a sample.
    pub open spec fn invoked(self, result: Result<InvocationView, ErrorView>) -> Result<
        StoppingView,
        ErrorView,
    > {
        match result {
            Err(e) => Err(e.chain("Measuring failed"@)),
            Ok(run) => if run.2 != 0 {
                Err(
                    ErrorView::bare(
                        ErrorKindView::NonZeroExitStatus {
                            exit_status: run.2,
                            stdout: run.0,
                            stderr: run.1,
                        },
                    ),
                )
            } else if !as_expected(self.plan.expected, run.0) {
                Err(mismatch(self.plan.expected, run.0))
            } else {
                Ok(
                    StoppingView {
                        plan: self.plan,
                        slot: self.slot,
                        container: self.container,
                        duration: run.3,
                    },
                )
            },
        }
    }
}

impl StoppingView {
    /// What the removal of the container leads to: the lines to print and
    /// the next step, or the end of the sweep.
    pub open spec fn stopped(self, result: Result<(), ErrorView>) -> Result<
        (Seq<Seq<char>>, StepView),
        ErrorView,
    > {
        match result {
            Err(e) => Err(e.chain("Deleting container failed!"@)),
            Ok(_) => Ok(
                (
                    self.plan.lines(self.slot, self.duration),
                    self.plan.step(self.plan.after(self.slot)),
                ),
            ),
        }
    }
}

/// The view of the state after a start, or of a failure.
pub open spec fn invoking_result(r: Result<Invoking, Error>) -> Result<InvokingView, ErrorView> {
    match r {
        Ok(state) => Ok(state@),
        Err(e) => Err(e@),
    }
}

/// The view of the state after an invocation, or of a failure.
pub open spec fn stopping_result(r: Result<Stopping, Error>) -> Result<StoppingView, ErrorView> {
    match r {
        Ok(state) => Ok(state@),
        Err(e) => Err(e@),
    }
}

/// The view of the lines and the step after a removal, or of a failure.
pub open spec fn step_result(r: Result<(Vec<String>, Step), Error>) -> Result<
    (Seq<Seq<char>>, StepView),
    ErrorView,
> {
    match r {
        Ok(next) => Ok((strings(next.0@), next.1@)),
        Err(e) => Err(e@),
    }
}

/// The sweep goes through its slots in order, run by run and within a
/// run in the order of the list: it begins at place 0, the slot at place
/// `k` is followed by the slot at place `k + 1`, and the slot at the last
/// place by nothing. Only the slot at place 0 prints the header.
pub proof fn lemma_run_major(plan: Sweep, k: nat)
    requires
        k < plan@.slots(),
    ensures
        plan@.holds(plan@.slot_at(k)),
        plan@.number(plan@.slot_at(k)) == k,
        plan@.first() == Some(plan@.slot_at(0)),
        k + 1 < plan@.slots() ==> plan@.after(plan@.slot_at(k)) == Some(plan@.slot_at(k + 1)),
        k + 1 == plan@.slots() ==> plan@.after(plan@.slot_at(k)) is None,
        k == 0 <==> plan@.lines(plan@.slot_at(k), 0).len() == 2,
{
    let n = plan.cpu_counts.len() as int;
    let r = plan.runs as int;
    assert(n > 0 && r > 0) by (nonlinear_arith)
        requires
            0 <= k < r * n,
            0 <= n,
            0 <= r,
    ;
    let q = k as int / n;
    let m = k as int % n;
    vstd::arithmetic::div_mod::lemma_fundamental_div_mod(k as int, n);
    vstd::arithmetic::div_mod::lemma_mod_bound(k as int, n);
    assert(0 <= q < r) by (nonlinear_arith)
        requires
            k == n * q + m,
            0 <= m < n,
            0 <= k < r * n,
    ;
    let here = plan@.slot_at(k);
    assert(here.run == q && here.index == m);
    assert(q * n == n * q) by (nonlinear_arith);
    vstd::arithmetic::div_mod::lemma_fundamental_div_mod_converse(0, n, 0, 0);
    assert(plan@.slot_at(0) == Slot { run: 0, index: 0 });
    if m + 1 < n {
        vstd::arithmetic::div_mod::lemma_fundamental_div_mod_converse(k as int + 1, n, q, m + 1);
        assert(k + 1 < r * n) by (nonlinear_arith)
            requires
                k == n * q + m,
                m + 1 < n,
                0 <= q < r,
        ;
        assert(plan@.slot_at(k + 1) == Slot { run: q as u32, index: (m + 1) as usize });
    } else {
        assert(n * (q + 1) == n * q + n) by (nonlinear_arith);
        vstd::arithmetic::div_mod::lemma_fundamental_div_mod_converse(k as int + 1, n, q + 1, 0);
        if q + 1 < r {
            assert(k + 1 < r * n) by (nonlinear_arith)
                requires
                    k + 1 == n * (q + 1),
                    q + 1 < r,
                    0 < n,
            ;
            assert(plan@.slot_at(k + 1) == Slot { run: (q + 1) as u32, index: 0 });
        } else {
            assert(k + 1 >= r * n) by (nonlinear_arith)
                requires
                    k + 1 == n * (q + 1),
                    q + 1 >= r,
                    0 < n,
            ;
        }
    }
}

/// The core indices below `cpu_count`, joined by commas.
pub fn cpuset(cpu_count: u32) -> (s: String)
    ensures
        s@ == cpuset_of(cpu_count),
{
    let mut s = String::new();
    let mut i: u32 = 0;
    while i < cpu_count
        invariant
            i <= cpu_count,
            s@ == join(core_indices(i as nat), ","@),
        decreases cpu_count - i,
    {
        if i > 0 {
            s.append(",");
        }
        s.append(decimal_string(i as u64).as_str());
        assert(core_indices((i + 1) as nat).drop_last() =~= core_indices(i as nat));
        i += 1;
    }
    s
}

/// One option of the form `NAME=number`.
fn setting(name: &str, value: u64) -> (s: String)
    ensures
        s@ == name@ + decimal(value as nat),
{
    let mut s = String::from_str(name);
    s.append(decimal_string(value).as_str());
    s
}

/// The options for a container of a sweep.
pub fn measure_options(cpu_count: u32, port: u16) -> (options: Vec<String>)
    ensures
        strings(options@) == measure_options_of(cpu_count, port),
{
    let mut options: Vec<String> = Vec::new();
    options.push(String::from_str("--cpuset-cpus"));
    options.push(cpuset(cpu_count));
    options.push(String::from_str("-p"));
    options.push(decimal_string(port as u64));
    options.push(String::from_str("-e"));
    options.push(setting("MAX_CPUS=", cpu_count as u64));
    options.push(String::from_str("-e"));
    options.push(setting("CDS_PORT=", port as u64));
    options.push(String::from_str("-e"));
    options.push(String::from_str("RUST_LOG=debug"));
    options.push(String::from_str("-e"));
    options.push(setting("REST_PORT=", port as u64));
    options
}

/// The options for the container of a single run.
pub fn single_options(cpu_count: u32, port: u16) -> (options: Vec<String>)
    ensures
        strings(options@) == single_options_of(cpu_count, port),
{
    let mut options: Vec<String> = Vec::new();
    options.push(String::from_str("--cpuset-cpus"));
    options.push(cpuset(cpu_count));
    options.push(String::from_str("-p"));
    options.push(decimal_string(port as u64));
    options.push(String::from_str("-e"));
    options.push(setting("MAX_CPUS=", cpu_count as u64));
    options.push(String::from_str("-e"));
    options.push(setting("REST_PORT=", port as u64));
    options
}

/// The header of the report.
pub fn header() -> (s: String)
    ensures
        s@ == header_of(),
{
    String::from_str("program; run; cpus; duration;")
}

/// One line of the report.
pub fn record(program: &str, run: u32, cpu_count: u32, duration: u64) -> (s: String)
    ensures
        s@ == record_of(program@, run, cpu_count, duration),
{
    let mut s = String::from_str(program);
    s.append("; ");
    s.append(decimal_string(run as u64).as_str());
    s.append("; ");
    s.append(decimal_string(cpu_count as u64).as_str());
    s.append("; ");
    s.append(decimal_string(duration).as_str());
    s
}

/// The full account of a single run.
pub fn report(program: &str, run: &Invocation) -> (s: String)
    ensures
        s@ == report_of(program@, (run.0@, run.1@, run.2, run.3)),
{
    let mut s = String::from_str("Ran program ");
    s.append(program);
    s.append("\nExit status: ");
    s.append(signed_string(run.2 as i64).as_str());
    s.append("\nDuration: ");
    s.append(decimal_string(run.3).as_str());
    s.append(" micro seconds\nstdout:\n");
    s.append("--------------");
    s.append("\n");
    s.append(run.0.as_str());
    s.append("--------------");
    s.append("\nstderr:\n");
    s.append("--------------");
    s.append("\n");
    s.append(run.1.as_str());
    s.append("--------------");
    s
}

/// Tells whether the output is what was expected, where anything was.
pub fn meets(expected: &Option<String>, stdout: &str) -> (ok: bool)
    ensures
        ok == as_expected(optional(*expected), stdout@),
{
    match expected {
        Some(e) => same_text(e.as_str(), stdout),
        None => true,
    }
}

/// The failure of a run whose output `stdout` is not the expected one.
fn unexpected(expected: &Option<String>, stdout: String) -> (e: Error)
    ensures
        e@ == mismatch(optional(*expected), stdout@),
{
    let wanted = match expected {
        Some(e) => e.clone(),
        None => String::new(),
    };
    Error::new(ErrorKind::OutputMismatch { actual: stdout, expected: wanted })
}

impl Sweep {
    /// The slot after `slot`, where there is one.
    fn advance(&self, slot: Slot) -> (next: Option<Slot>)
        requires
            self@.holds(slot),
        ensures
            next == self@.after(slot),
            next matches Some(s) ==> self@.holds(s),
    {
        assert(slot.index < self.cpu_counts.len());
        if slot.index + 1 < self.cpu_counts.len() {
            Some(Slot { run: slot.run, index: slot.index + 1 })
        } else if slot.run + 1 < self.runs {
            Some(Slot { run: slot.run + 1, index: 0 })
        } else {
            None
        }
    }

    /// The step at a slot, or after the last.
    fn step(self, slot: Option<Slot>) -> (step: Step)
        requires
            slot matches Some(s) ==> self@.holds(s),
        ensures
            step@ == self@.step(slot),
    {
        match slot {
            Some(slot) => Step::Start(Starting { plan: self, slot }),
            None => Step::Done,
        }
    }

    /// The first step of the sweep: the container of the first slot, or
    /// nothing where there are no runs or no numbers of processors.
    pub fn begin(self) -> (step: Step)
        ensures
            step@ == self@.step(self@.first()),
    {
        let first = if self.runs > 0 && self.cpu_counts.len() > 0 {
            Some(Slot { run: 0, index: 0 })
        } else {
            None
        };
        self.step(first)
    }
}

impl Starting {
    #[verifier::type_invariant]
    spec fn valid(&self) -> bool {
        self.plan@.holds(self.slot)
    }

    /// The image to start the container from.
    pub fn image(&self) -> (image: &str)
        ensures
            image@ == self@.plan.image,
    {
        self.plan.image.as_str()
    }

    /// The run that the container is for.
    pub fn run(&self) -> (run: u32)
        ensures
            run == self@.slot.run,
    {
        self.slot.run
    }

    /// The number of processors that the container is pinned to.
    pub fn cpu_count(&self) -> (cpu_count: u32)
        ensures
            self@.plan.holds(self@.slot),
            cpu_count == self@.plan.cpu_count(self@.slot),
    {
        proof {
            use_type_invariant(self);
        }
        self.plan.cpu_counts[self.slot.index]
    }

    /// The options to start the container with.
    pub fn options(&self) -> (options: Vec<String>)
        ensures
            strings(options@) == measure_options_of(
                self@.plan.cpu_count(self@.slot),
                self@.plan.port,
            ),
    {
        measure_options(self.cpu_count(), self.plan.port)
    }

    /// Takes what starting the container gave: its id, or the failure.
    pub fn started(self, result: Result<String, Error>) -> (r: Result<Invoking, Error>)
        ensures
            invoking_result(r) == self@.started(crate::error::text_result(result)),
    {
        proof {
            use_type_invariant(&self);
        }
        match result {
            Ok(container) => Ok(Invoking { plan: self.plan, slot: self.slot, container }),
            Err(e) => Err(e.chain("Starting of measurement container failed")),
        }
    }
}

impl Invoking {
    #[verifier::type_invariant]
    spec fn valid(&self) -> bool {
        self.plan@.holds(self.slot)
    }

    /// The container to invoke the program in.
    pub fn container(&self) -> (container: &str)
        ensures
            container@ == self@.container,
    {
        self.container.as_str()
    }

    /// The program to invoke.
    pub fn program(&self) -> (program: &str)
        ensures
            program@ == self@.plan.program,
    {
        self.plan.program.as_str()
    }

    /// The port that the server listens on.
    pub fn port(&self) -> (port: u16)
        ensures
            port == self@.plan.port,
    {
        self.plan.port
    }

    /// The invocation to make: of the sweep's program, in the container
    /// that was started, with `stdin` as its input.
    pub fn call(&self, stdin: Vec<u8>) -> (call: Resolving)
        ensures
            call@ == (ResolvingView {
                reference: self@.container,
                port: self@.plan.port,
                program: self@.plan.program,
                stdin: stdin@,
            }),
    {
        Resolving {
            reference: self.container.clone(),
            port: self.plan.port,
            program: self.plan.program.clone(),
            stdin,
        }
    }

    /// Takes what the invocation gave: the run, or the failure.
    pub fn invoked(self, result: Result<Invocation, Error>) -> (r: Result<Stopping, Error>)
        ensures
            stopping_result(r) == self@.invoked(invocation_result(result)),
    {
        proof {
            use_type_invariant(&self);
        }
        match result {
            Err(e) => Err(e.chain("Measuring failed")),
            Ok(run) => {
                let (stdout, stderr, exit_status, duration) = run;
                if exit_status != 0 {
                    Err(Error::new(ErrorKind::NonZeroExitStatus { exit_status, stdout, stderr }))
                } else if !meets(&self.plan.expected, stdout.as_str()) {
                    Err(unexpected(&self.plan.expected, stdout))
                } else {
                    Ok(
                        Stopping {
                            plan: self.plan,
                            slot: self.slot,
                            container: self.container,
                            duration,
                        },
                    )
                }
            },
        }
    }
}

impl Stopping {
    #[verifier::type_invariant]
    spec fn valid(&self) -> bool {
        self.plan@.holds(self.slot)
    }

    /// The container to remove.
    pub fn container(&self) -> (container: &str)
        ensures
            container@ == self@.container,
    {
        self.container.as_str()
    }

    /// Takes what removing the container gave. Where it went well, gives
    /// the lines to print for the sample and the next step.
    pub fn stopped(self, result: Result<(), Error>) -> (r: Result<(Vec<String>, Step), Error>)
        ensures
            step_result(r) == self@.stopped(crate::error::unit_result(result)),
    {
        proof {
            use_type_invariant(&self);
        }
        match result {
            Err(e) => Err(e.chain("Deleting container failed!")),
            Ok(_) => {
                let cpu_count = self.plan.cpu_counts[self.slot.index];
                let mut lines: Vec<String> = Vec::new();
                if self.slot.run == 0 && self.slot.index == 0 {
                    lines.push(header());
                }
                lines.push(
                    record(self.plan.program.as_str(), self.slot.run, cpu_count, self.duration),
                );
                assert(strings(lines@) =~= self@.plan.lines(self@.slot, self@.duration));
                let next = self.plan.advance(self.slot);
                Ok((lines, self.plan.step(next)))
            },
        }
    }
}

/// A single run: of a program in a container that was either started for
/// it or found running.
#[derive(Debug, Clone, PartialEq, Eq)]
pub struct SingleShot {
    pub program: String,
    pub port: u16,
    pub expected: Option<String>,
    pub container: String,
    pub created: bool,
}

/// The mathematical value of a `SingleShot`.
pub struct SingleShotView {
    pub program: Seq<char>,
    pub port: u16,
    pub expected: Option<Seq<char>>,
    pub container: Seq<char>,
    pub created: bool,
}

/// How a single run ends: what to print, which container to remove, and
/// the result to hand on once that is done.
#[derive(Debug, PartialEq, Eq)]
pub struct Conclusion {
    pub lines: Vec<String>,
    pub remove: Option<String>,
    pub result: Result<(), Error>,
}

/// The mathematical value of a `Conclusion`.
pub struct ConclusionView {
    pub lines: Seq<Seq<char>>,
    pub remove: Option<Seq<char>>,
    pub result: Result<(), ErrorView>,
}

impl View for SingleShot {
    type V = SingleShotView;

    open spec fn view(&self) -> SingleShotView {
        SingleShotView {
            program: self.program@,
            port: self.port,
            expected: optional(self.expected),
            container: self.container@,
            created: self.created,
        }
    }
}

impl View for Conclusion {
    type V = ConclusionView;

    open spec fn view(&self) -> ConclusionView {
        ConclusionView {
            lines: strings(self.lines@),
            remove: optional(self.remove),
            result: crate::error::unit_result(self.result),
        }
    }
}

/// The view of a single run that is set up, or of a failure.
pub open spec fn single_shot_result(r: Result<SingleShot, Error>) -> Result<
    SingleShotView,
    ErrorView,
> {
    match r {
        Ok(shot) => Ok(shot@),
        Err(e) => Err(e@),
    }
}

impl SingleShotView {
    /// A single run in a container started for it, given what starting
    /// the container gave.
    pub open spec fn fresh(
        program: Seq<char>,
        port: u16,
        expected: Option<Seq<char>>,
        started: Result<Seq<char>, ErrorView>,
    ) -> Result<SingleShotView, ErrorView> {
        match started {
            Ok(container) => Ok(
                SingleShotView { program, port, expected, container, created: true },
            ),
            Err(e) => Err(e.chain("starting of measurement container failed"@)),
        }
    }

    /// The container to remove when the run is over: the one that was
    /// started for it, however the run ended.
    pub open spec fn teardown(self) -> Option<Seq<char>> {
        if self.created {
            Some(self.container)
        } else {
            None
        }
    }

    /// How the run ends, given what the invocation gave. A run that took
    /// place is printed in full, also where its output is not the expected
    /// one.
    pub open spec fn conclude(self, result: Result<InvocationView, ErrorView>) -> ConclusionView {
        match result {
            Err(e) => ConclusionView {
                lines: Seq::empty(),
                remove: self.teardown(),
                result: Err(e.chain("Measuring failed"@)),
            },
            Ok(run) => ConclusionView {
                lines: seq![report_of(self.program, run)],
                remove: self.teardown(),
                result: if as_expected(self.expected, run.0) {
                    Ok(())
                } else {
                    Err(mismatch(self.expected, run.0))
                },
            },
        }
    }
}

impl SingleShot {
    /// A single run in a container started for it, given what starting
    /// the container gave.
    pub fn fresh(
        program: String,
        port: u16,
        expected: Option<String>,
        started: Result<String, Error>,
    ) -> (r: Result<SingleShot, Error>)
        ensures
            single_shot_result(r) == SingleShotView::fresh(
                program@,
                port,
                optional(expected),
                crate::error::text_result(started),
            ),
    {
        match started {
            Ok(container) => Ok(SingleShot { program, port, expected, container, created: true }),
            Err(e) => Err(e.chain("starting of measurement container failed")),
        }
    }

    /// A single run in a container that is already running.
    pub fn existing(program: String, port: u16, expected: Option<String>, container: String) -> (shot:
        SingleShot)
        ensures
            shot@ == (SingleShotView {
                program: program@,
                port,
                expected: optional(expected),
                container: container@,
                created: false,
            }),
    {
        SingleShot { program, port, expected, container, created: false }
    }

    /// The invocation to make: of the program, in the container, with
    /// `stdin` as its input.
    pub fn call(&self, stdin: Vec<u8>) -> (call: Resolving)
        ensures
            call@ == (ResolvingView {
                reference: self@.container,
                port: self@.port,
                program: self@.program,
                stdin: stdin@,
            }),
    {
        Resolving {
            reference: self.container.clone(),
            port: self.port,
            program: self.program.clone(),
            stdin,
        }
    }

    /// How the run ends, given what the invocation gave.
    pub fn conclude(self, result: Result<Invocation, Error>) -> (end: Conclusion)
        ensures
            end@ == self@.conclude(invocation_result(result)),
            end@.remove == self@.teardown(),
    {
        let remove = if self.created {
            Some(self.container)
        } else {
            None
        };
        match result {
            Err(e) => {
                let lines: Vec<String> = Vec::new();
                assert(strings(lines@) =~= Seq::<Seq<char>>::empty());
                Conclusion { lines, remove, result: Err(e.chain("Measuring failed")) }
            },
            Ok(run) => {
                let mut lines: Vec<String> = Vec::new();
                lines.push(report(self.program.as_str(), &run));
                assert(strings(lines@) =~= seq![
                    report_of(self@.program, (run.0@, run.1@, run.2, run.3)),
                ]);
                let result = if meets(&self.expected, run.0.as_str()) {
                    Ok(())
                } else {
                    Err(unexpected(&self.expected, run.0))
                };
                Conclusion { lines, remove, result }
            },
        }
    }
}

} // verus!
