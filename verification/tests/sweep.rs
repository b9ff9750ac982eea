use cds_bench::docker::{stop_container, Output};
use cds_bench::error::{Error, ErrorKind};
use cds_bench::run::Resolving;
use cds_bench::measure::{
    cpuset, header, measure_options, meets, record, report, single_options, Conclusion,
    SingleShot, Step, Sweep,
};

fn sweep(runs: u32, cpu_counts: Vec<u32>, expected: Option<&str>) -> Sweep {
    Sweep {
        program: "sort".to_string(),
        image: "cds/server".to_string(),
        port: 8080,
        runs,
        cpu_counts,
        expected: expected.map(|e| e.to_string()),
    }
}

fn ran(stdout: &str, exit_status: i32, duration: u64) -> Result<(String, String, i32, u64), Error> {
    Ok((stdout.to_string(), "log\n".to_string(), exit_status, duration))
}

fn no_such_container() -> Error {
    Error::new(ErrorKind::RuntimeExecution { exit_code: 1, stderr: "no such container".to_string() })
}

/// Runs a whole sweep in which every operation goes well and the run at
/// place `k` takes `100 + k` microseconds; gives what was started, in
/// order, and what was printed.
fn drive(plan: Sweep) -> (Vec<(u32, u32, Vec<String>)>, Vec<String>) {
    let mut started = Vec::new();
    let mut printed = Vec::new();
    let mut step = plan.begin();
    let mut k: u64 = 0;
    while let Step::Start(starting) = step {
        assert_eq!(starting.image(), "cds/server");
        started.push((starting.run(), starting.cpu_count(), starting.options()));
        let invoking = starting.started(Ok(format!("container{:03}", k))).unwrap();
        assert_eq!(invoking.container(), format!("container{:03}", k));
        assert_eq!(invoking.program(), "sort");
        assert_eq!(invoking.port(), 8080);
        assert_eq!(
            invoking.call(vec![1, 0, 2]),
            Resolving {
                reference: format!("container{:03}", k),
                port: 8080,
                program: "sort".to_string(),
                stdin: vec![1, 0, 2],
            }
        );
        let stopping = invoking.invoked(ran("1 2 3\n", 0, 100 + k)).unwrap();
        assert_eq!(stopping.container(), format!("container{:03}", k));
        let (lines, next) = stopping.stopped(Ok(())).unwrap();
        printed.extend(lines);
        step = next;
        k += 1;
    }
    (started, printed)
}

#[test]
fn cpuset_lists_core_indices() {
    assert_eq!(cpuset(0), "");
    assert_eq!(cpuset(1), "0");
    assert_eq!(cpuset(2), "0,1");
    assert_eq!(cpuset(4), "0,1,2,3");
    assert_eq!(cpuset(12), "0,1,2,3,4,5,6,7,8,9,10,11");
}

#[test]
fn measure_options_pin_publish_and_configure() {
    assert_eq!(
        measure_options(2, 8080),
        vec![
            "--cpuset-cpus",
            "0,1",
            "-p",
            "8080",
            "-e",
            "MAX_CPUS=2",
            "-e",
            "CDS_PORT=8080",
            "-e",
            "RUST_LOG=debug",
            "-e",
            "REST_PORT=8080"
        ]
    );
}

#[test]
fn single_options_pin_publish_and_configure() {
    assert_eq!(
        single_options(4, 80),
        vec!["--cpuset-cpus", "0,1,2,3", "-p", "80", "-e", "MAX_CPUS=4", "-e", "REST_PORT=80"]
    );
}

#[test]
fn header_and_record_lines() {
    assert_eq!(header(), "program; run; cpus; duration;");
    assert_eq!(record("sort", 0, 1, 1234), "sort; 0; 1; 1234");
    assert_eq!(record("", 4294967295, 0, u64::MAX), "; 4294967295; 0; 18446744073709551615");
}

#[test]
fn report_shows_the_whole_run() {
    let run = ("out\n".to_string(), "err\n".to_string(), -2, 77);
    assert_eq!(
        report("sort", &run),
        "Ran program sort\nExit status: -2\nDuration: 77 micro seconds\nstdout:\n--------------\nout\n--------------\nstderr:\n--------------\nerr\n--------------"
    );
}

#[test]
fn meets_compares_exactly() {
    assert!(meets(&None, "anything"));
    assert!(meets(&Some("1 2 3\n".to_string()), "1 2 3\n"));
    assert!(!meets(&Some("1 2 3\n".to_string()), "1 2 3"));
    assert!(!meets(&Some(String::new()), "x"));
    assert!(meets(&Some(String::new()), ""));
}

#[test]
fn two_runs_of_two_cpu_counts_give_four_records() {
    let (started, printed) = drive(sweep(2, vec![1, 2], None));
    let order: Vec<(u32, u32)> = started.iter().map(|s| (s.0, s.1)).collect();
    assert_eq!(order, vec![(0, 1), (0, 2), (1, 1), (1, 2)]);
    assert_eq!(
        printed,
        vec![
            "program; run; cpus; duration;",
            "sort; 0; 1; 100",
            "sort; 0; 2; 101",
            "sort; 1; 1; 102",
            "sort; 1; 2; 103"
        ]
    );
}

#[test]
fn each_container_gets_the_options_of_its_cpu_count() {
    let (started, _) = drive(sweep(1, vec![4, 1], None));
    assert_eq!(started.len(), 2);
    assert_eq!(started[0].2, measure_options(4, 8080));
    assert_eq!(started[1].2, measure_options(1, 8080));
}

#[test]
fn sweep_is_run_major_for_any_shape() {
    for runs in 0u32..4 {
        for n in 0usize..4 {
            let cpu_counts: Vec<u32> = (0..n).map(|i| 10 + i as u32).collect();
            let (started, printed) = drive(sweep(runs, cpu_counts.clone(), None));
            let mut expected = Vec::new();
            for r in 0..runs {
                for c in cpu_counts.iter() {
                    expected.push((r, *c));
                }
            }
            let order: Vec<(u32, u32)> = started.iter().map(|s| (s.0, s.1)).collect();
            assert_eq!(order, expected);
            if expected.is_empty() {
                assert!(printed.is_empty());
            } else {
                assert_eq!(printed.len(), expected.len() + 1);
                assert_eq!(printed[0], "program; run; cpus; duration;");
                assert_eq!(printed.iter().filter(|l| *l == "program; run; cpus; duration;").count(), 1);
            }
        }
    }
}

#[test]
fn sweep_without_runs_or_cpu_counts_does_nothing() {
    assert!(matches!(sweep(0, vec![1, 2], None).begin(), Step::Done));
    assert!(matches!(sweep(3, vec![], None).begin(), Step::Done));
}

#[test]
fn repeated_cpu_counts_are_swept_as_given() {
    let (started, printed) = drive(sweep(1, vec![2, 2], None));
    let order: Vec<(u32, u32)> = started.iter().map(|s| (s.0, s.1)).collect();
    assert_eq!(order, vec![(0, 2), (0, 2)]);
    assert_eq!(printed.len(), 3);
}

#[test]
fn failed_start_ends_the_sweep() {
    let Step::Start(starting) = sweep(2, vec![1], None).begin() else {
        panic!("nothing to start");
    };
    let e = match starting.started(Err(no_such_container())) {
        Err(e) => e,
        Ok(_) => panic!("started"),
    };
    assert_eq!(e.context, vec!["Starting of measurement container failed"]);
    assert_eq!(
        e.kind,
        ErrorKind::RuntimeExecution { exit_code: 1, stderr: "no such container".to_string() }
    );
}

#[test]
fn failed_invocation_ends_the_sweep() {
    let Step::Start(starting) = sweep(2, vec![1], None).begin() else {
        panic!("nothing to start");
    };
    let invoking = starting.started(Ok("abc".to_string())).ok().unwrap();
    let cause = Error::new(ErrorKind::RemoteExecution { message: "boom".to_string() });
    let e = match invoking.invoked(Err(cause)) {
        Err(e) => e,
        Ok(_) => panic!("invoked"),
    };
    assert_eq!(e.context, vec!["Measuring failed"]);
    assert_eq!(e.message(), "Measuring failed\nCaused by: boom");
}

#[test]
fn non_zero_exit_status_ends_the_sweep() {
    let Step::Start(starting) = sweep(2, vec![1], Some("1 2 3\n")).begin() else {
        panic!("nothing to start");
    };
    let invoking = starting.started(Ok("abc".to_string())).ok().unwrap();
    let e = match invoking.invoked(ran("1 2 3\n", 2, 5)) {
        Err(e) => e,
        Ok(_) => panic!("accepted"),
    };
    assert_eq!(
        e,
        Error::new(ErrorKind::NonZeroExitStatus {
            exit_status: 2,
            stdout: "1 2 3\n".to_string(),
            stderr: "log\n".to_string()
        })
    );
}

#[test]
fn exit_status_is_judged_before_output() {
    let Step::Start(starting) = sweep(1, vec![1], Some("expected")).begin() else {
        panic!("nothing to start");
    };
    let invoking = starting.started(Ok("abc".to_string())).ok().unwrap();
    let e = match invoking.invoked(ran("other", 1, 5)) {
        Err(e) => e,
        Ok(_) => panic!("accepted"),
    };
    assert!(matches!(e.kind, ErrorKind::NonZeroExitStatus { exit_status: 1, .. }));
}

#[test]
fn unexpected_output_ends_the_sweep() {
    let Step::Start(starting) = sweep(2, vec![1], Some("1 2 3\n")).begin() else {
        panic!("nothing to start");
    };
    let invoking = starting.started(Ok("abc".to_string())).ok().unwrap();
    let e = match invoking.invoked(ran("3 2 1\n", 0, 5)) {
        Err(e) => e,
        Ok(_) => panic!("accepted"),
    };
    assert_eq!(
        e,
        Error::new(ErrorKind::OutputMismatch {
            actual: "3 2 1\n".to_string(),
            expected: "1 2 3\n".to_string()
        })
    );
}

#[test]
fn expected_output_lets_the_sweep_go_on() {
    let (started, printed) = drive(sweep(1, vec![1, 2], Some("1 2 3\n")));
    assert_eq!(started.len(), 2);
    assert_eq!(printed.len(), 3);
}

#[test]
fn failed_removal_ends_the_sweep_with_the_runtime_message() {
    let Step::Start(starting) = sweep(2, vec![1, 2], None).begin() else {
        panic!("nothing to start");
    };
    let invoking = starting.started(Ok("abc".to_string())).ok().unwrap();
    let stopping = invoking.invoked(ran("x", 0, 5)).ok().unwrap();
    let outcome = Ok(Output {
        code: Some(1),
        stdout: vec![],
        stderr: b"no such container".to_vec(),
    });
    let e = match stopping.stopped(stop_container(outcome)) {
        Err(e) => e,
        Ok(_) => panic!("stopped"),
    };
    assert_eq!(e.context, vec!["Deleting container failed!"]);
    assert_eq!(
        e.message(),
        "Deleting container failed!\nCaused by: Invocation of docker client terminated unsuccessfully with exit code 1: no such container"
    );
    assert!(e.message().contains("no such container"));
}

#[test]
fn single_shot_prints_and_succeeds() {
    let shot = SingleShot::existing("sort".to_string(), 8080, None, "abc".to_string());
    let end = shot.conclude(ran("1 2 3\n", 3, 42));
    assert_eq!(
        end,
        Conclusion {
            lines: vec![report("sort", &("1 2 3\n".to_string(), "log\n".to_string(), 3, 42))],
            remove: None,
            result: Ok(()),
        }
    );
}

#[test]
fn single_shot_prints_the_run_before_reporting_a_mismatch() {
    let shot = SingleShot::fresh("sort".to_string(), 8080, Some("1 2 3\n".to_string()), Ok("abc".to_string()))
        .unwrap();
    let end = shot.conclude(ran("3 2 1\n", 0, 42));
    assert_eq!(end.lines.len(), 1);
    assert_eq!(end.lines[0], report("sort", &("3 2 1\n".to_string(), "log\n".to_string(), 0, 42)));
    assert!(end.lines[0].contains("3 2 1\n"));
    assert_eq!(end.remove, Some("abc".to_string()));
    assert_eq!(
        end.result,
        Err(Error::new(ErrorKind::OutputMismatch {
            actual: "3 2 1\n".to_string(),
            expected: "1 2 3\n".to_string()
        }))
    );
}

#[test]
fn single_shot_removes_its_own_container_on_every_path() {
    let make = || SingleShot::fresh("sort".to_string(), 8080, Some("x".to_string()), Ok("abc".to_string())).unwrap();
    assert!(make().created);
    let boom = Error::new(ErrorKind::RemoteExecution { message: "boom".to_string() });
    assert_eq!(make().conclude(ran("x", 0, 1)).remove, Some("abc".to_string()));
    assert_eq!(make().conclude(ran("y", 0, 1)).remove, Some("abc".to_string()));
    assert_eq!(make().conclude(ran("x", 9, 1)).remove, Some("abc".to_string()));
    assert_eq!(make().conclude(Err(boom)).remove, Some("abc".to_string()));
}

#[test]
fn single_shot_leaves_a_found_container_alone() {
    let make = || SingleShot::existing("sort".to_string(), 8080, Some("x".to_string()), "abc".to_string());
    assert!(!make().created);
    let boom = Error::new(ErrorKind::RemoteExecution { message: "boom".to_string() });
    assert_eq!(make().conclude(ran("x", 0, 1)).remove, None);
    assert_eq!(make().conclude(ran("y", 0, 1)).remove, None);
    assert_eq!(make().conclude(Err(boom)).remove, None);
}

#[test]
fn single_shot_failed_invocation_prints_nothing() {
    let shot = SingleShot::fresh("sort".to_string(), 8080, None, Ok("abc".to_string())).unwrap();
    let boom = Error::new(ErrorKind::RemoteExecution { message: "boom".to_string() });
    let end = shot.conclude(Err(boom));
    assert!(end.lines.is_empty());
    let e = end.result.unwrap_err();
    assert_eq!(e.context, vec!["Measuring failed"]);
    assert_eq!(e.kind, ErrorKind::RemoteExecution { message: "boom".to_string() });
}

#[test]
fn single_shot_accepts_any_exit_status() {
    let shot = SingleShot::existing("sort".to_string(), 8080, Some("x".to_string()), "abc".to_string());
    assert_eq!(shot.conclude(ran("x", 17, 1)).result, Ok(()));
}

#[test]
fn single_shot_that_cannot_start_fails() {
    let r = SingleShot::fresh("sort".to_string(), 8080, None, Err(no_such_container()));
    let e = r.unwrap_err();
    assert_eq!(e.context, vec!["starting of measurement container failed"]);
}

#[test]
fn single_shot_calls_its_container() {
    let shot = SingleShot::existing("sort".to_string(), 8080, None, "abc".to_string());
    assert_eq!(
        shot.call(b"3 1 2".to_vec()),
        Resolving {
            reference: "abc".to_string(),
            port: 8080,
            program: "sort".to_string(),
            stdin: b"3 1 2".to_vec(),
        }
    );
}
