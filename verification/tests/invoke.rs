use cds_bench::error::{DecodeFault, Error, ErrorKind, Stream};
use cds_bench::docker::Output;
use cds_bench::run::{
    endpoint, log_text, payload, request_body, run, settle, Answered, Diagnosing, Exchange,
    InvokeRequestBody, InvokeResponseBody, Located, Locating, Parsing, Pending, Posting,
    Resolving,
};

fn plain(kind: ErrorKind) -> Error {
    Error { kind, context: vec![] }
}

fn response(stdout: &str, stderr: &str, exit_status: i32, duration: u64) -> InvokeResponseBody {
    InvokeResponseBody {
        stdout: stdout.to_string(),
        stderr: stderr.to_string(),
        exit_status,
        duration,
        error: None,
    }
}

#[test]
fn request_body_is_base64_of_stdin() {
    assert_eq!(request_body(b"hello world"), InvokeRequestBody { stdin: "aGVsbG8gd29ybGQ=".to_string() });
    assert_eq!(request_body(b"").stdin, "");
    assert_eq!(request_body(b"a").stdin, "YQ==");
    assert_eq!(request_body(b"ab").stdin, "YWI=");
    assert_eq!(request_body(b"abc").stdin, "YWJj");
    assert_eq!(request_body(&[0xfb, 0xff]).stdin, "+/8=");
}

#[test]
fn stdin_survives_the_round_trip() {
    let inputs: Vec<Vec<u8>> = vec![
        vec![],
        vec![0],
        vec![0, 0, 0],
        b"a\0b\0\0c".to_vec(),
        b"plain text\n".to_vec(),
        (0u8..=255).collect(),
        vec![0xff; 1000],
    ];
    for input in inputs {
        let body = request_body(&input);
        assert_eq!(payload(&body.stdin), Ok(input));
    }
}

#[test]
fn payload_reports_the_fault() {
    assert_eq!(payload("aGVsbG8="), Ok(b"hello".to_vec()));
    assert_eq!(payload(""), Ok(vec![]));
    assert_eq!(payload("a!bc"), Err(DecodeFault::InvalidByte { offset: 1, byte: b'!' }));
    assert_eq!(payload("abcde"), Err(DecodeFault::InvalidLength));
    assert_eq!(payload("YR=="), Err(DecodeFault::InvalidLastSymbol { offset: 1, byte: b'R' }));
}

#[test]
fn endpoint_names_address_and_program() {
    assert_eq!(endpoint("0.0.0.0:32768", "sort"), "http://0.0.0.0:32768/run/sort");
    assert_eq!(endpoint("[::1]:80", ""), "http://[::1]:80/run/");
}

#[test]
fn log_text_is_log_or_reason() {
    assert_eq!(log_text(Ok("started\nlistening\n".to_string())), "started\nlistening\n");
    let e = plain(ErrorKind::RuntimeExecution { exit_code: 1, stderr: "gone".to_string() });
    assert_eq!(
        log_text(Err(e)),
        "Unable to obtain log: Invocation of docker client terminated unsuccessfully with exit code 1: gone"
    );
}

fn listed(text: &str) -> Result<Output, String> {
    Ok(Output { code: Some(0), stdout: text.as_bytes().to_vec(), stderr: vec![] })
}

fn refused(code: i32, stderr: &str) -> Result<Output, String> {
    Ok(Output { code: Some(code), stdout: vec![], stderr: stderr.as_bytes().to_vec() })
}

fn call(reference: &str) -> Resolving {
    Resolving {
        reference: reference.to_string(),
        port: 80,
        program: "sort".to_string(),
        stdin: b"3 1 2\n".to_vec(),
    }
}

fn locating() -> Locating {
    Locating {
        container: "abc123".to_string(),
        port: 80,
        program: "sort".to_string(),
        stdin: b"3 1 2\n".to_vec(),
    }
}

fn parsing() -> Parsing {
    Parsing {
        container: "abc123".to_string(),
        outer: "0.0.0.0:32768".to_string(),
        port: 80,
        program: "sort".to_string(),
        stdin: b"3 1 2\n".to_vec(),
    }
}

fn posting() -> Posting {
    Posting {
        container: "abc123".to_string(),
        url: "http://0.0.0.0:32768/run/sort".to_string(),
        body: InvokeRequestBody { stdin: "MyAxIDIK".to_string() },
    }
}

#[test]
fn call_lists_containers_first() {
    assert_eq!(call("web").command(), vec!["ps", "--format", "{{.ID}}:{{.Names}}"]);
}

#[test]
fn call_resolves_its_container() {
    let next = call("web").resolved(listed("abc123:webserver\ndef456:worker\n"));
    assert_eq!(next, Ok(locating()));
}

#[test]
fn call_without_container_fails() {
    let next = call("db").resolved(listed("abc123:webserver\ndef456:worker\n"));
    assert_eq!(next, Err(plain(ErrorKind::ContainerNotFound { reference: "db".to_string() })));
    assert_eq!(
        call("db").resolved(listed("")).unwrap_err().message(),
        "Unable to find a running container with id db."
    );
}

#[test]
fn call_hands_on_a_failed_listing() {
    let next = call("web").resolved(refused(1, "daemon down"));
    assert_eq!(
        next,
        Err(plain(ErrorKind::RuntimeExecution { exit_code: 1, stderr: "daemon down".to_string() }))
    );
}

#[test]
fn call_lists_the_ports_of_its_container() {
    assert_eq!(locating().command(), vec!["port", "abc123"]);
}

#[test]
fn call_finds_the_address_of_its_port() {
    let listing = "80/tcp -> 0.0.0.0:32768\n443/tcp -> 0.0.0.0:32769\n";
    assert_eq!(locating().located(listed(listing)), Ok(Located::Parsing(parsing())));
}

#[test]
fn call_to_unexposed_port_asks_for_the_log() {
    let listing = "8080/tcp -> 0.0.0.0:32768\n";
    let waiting = Diagnosing { container: "abc123".to_string(), failure: Pending::PortNotExposed };
    assert_eq!(locating().located(listed(listing)), Ok(Located::Unexposed(waiting.clone())));
    assert_eq!(locating().located(listed("")), Ok(Located::Unexposed(waiting)));
}

#[test]
fn call_hands_on_a_failed_port_listing() {
    assert_eq!(
        locating().located(refused(1, "no such container")),
        Err(plain(ErrorKind::RuntimeExecution {
            exit_code: 1,
            stderr: "no such container".to_string()
        }))
    );
}

#[test]
fn call_with_socket_address_posts_its_request() {
    assert_eq!(parsing().parsed(Some("0.0.0.0:32768".to_string())), Ok(posting()));
}

#[test]
fn call_posts_to_the_canonical_address() {
    let mut state = parsing();
    state.outer = "127.000.0.1:80".to_string();
    let next = state.parsed(Some("127.0.0.1:80".to_string())).unwrap();
    assert_eq!(next.url, "http://127.0.0.1:80/run/sort");
}

#[test]
fn call_with_other_address_fails() {
    let mut state = parsing();
    state.outer = ":::32768".to_string();
    assert_eq!(
        state.parsed(None),
        Err(plain(ErrorKind::AddressParse {
            container: "abc123".to_string(),
            address: ":::32768".to_string(),
            port: 80
        }))
    );
}

#[test]
fn answered_call_is_over() {
    let body = response("MSAyIDMK", "", 0, 99);
    assert_eq!(
        posting().answered(Exchange::Response(body)),
        Answered::Done(Ok(("1 2 3\n".to_string(), String::new(), 0, 99)))
    );
    let mut body = response("MSAyIDMK", "", 0, 99);
    body.error = Some("no such program".to_string());
    assert_eq!(
        posting().answered(Exchange::Response(body)),
        Answered::Done(Err(plain(ErrorKind::RemoteExecution {
            message: "no such program".to_string()
        })))
    );
}

#[test]
fn unanswered_call_asks_for_the_log() {
    assert_eq!(
        posting().answered(Exchange::Unreachable { cause: "connection refused".to_string() }),
        Answered::Failed(Diagnosing {
            container: "abc123".to_string(),
            failure: Pending::Communication { cause: "connection refused".to_string() }
        })
    );
    assert_eq!(
        posting().answered(Exchange::Unreadable { cause: "expected value".to_string() }),
        Answered::Failed(Diagnosing {
            container: "abc123".to_string(),
            failure: Pending::ResponseParse { cause: "expected value".to_string() }
        })
    );
}

#[test]
fn failed_call_fetches_the_log_of_its_container() {
    let waiting = Diagnosing { container: "abc123".to_string(), failure: Pending::PortNotExposed };
    assert_eq!(waiting.command(), vec!["logs", "abc123"]);
}

#[test]
fn port_not_exposed_carries_the_log() {
    let waiting = Diagnosing { container: "abc123".to_string(), failure: Pending::PortNotExposed };
    let e = waiting.diagnosed(listed("server up\n"));
    assert_eq!(
        e,
        plain(ErrorKind::PortNotExposed {
            container: "abc123".to_string(),
            log: "server up\n".to_string()
        })
    );
    assert_eq!(
        e.message(),
        "Unable to find public address of cds server running in container abc123. Is the port exposed?\nContainer Log:\nserver up\n"
    );
}

#[test]
fn port_not_exposed_keeps_primary_failure_without_log() {
    let waiting = Diagnosing { container: "abc123".to_string(), failure: Pending::PortNotExposed };
    let e = waiting.diagnosed(Err("not found".to_string()));
    match &e.kind {
        ErrorKind::PortNotExposed { container, log } => {
            assert_eq!(container, "abc123");
            assert_eq!(
                log,
                "Unable to obtain log: Unable to invoke docker client\nCaused by: not found"
            );
        }
        other => panic!("unexpected kind {:?}", other),
    }
}

#[test]
fn communication_failure_carries_cause_and_log() {
    let waiting = Diagnosing {
        container: "abc123".to_string(),
        failure: Pending::Communication { cause: "connection refused".to_string() },
    };
    let e = waiting.diagnosed(listed("boot\n"));
    assert_eq!(
        e,
        plain(ErrorKind::Communication {
            cause: "connection refused".to_string(),
            log: "boot\n".to_string()
        })
    );
    assert_eq!(
        e.message(),
        "Server Communication Issue\nServer Container Log:\nboot\n\nCaused by: connection refused"
    );
}

#[test]
fn response_parse_failure_carries_cause_and_log() {
    let waiting = Diagnosing {
        container: "abc123".to_string(),
        failure: Pending::ResponseParse { cause: "expected value at line 1".to_string() },
    };
    let e = waiting.diagnosed(refused(1, "gone"));
    assert_eq!(
        e,
        plain(ErrorKind::ResponseParse {
            cause: "expected value at line 1".to_string(),
            log: "Unable to obtain log: Invocation of docker client terminated unsuccessfully with exit code 1: gone".to_string()
        })
    );
}

#[test]
fn whole_call_in_order() {
    let state = call("web").resolved(listed("abc123:webserver\n")).unwrap();
    let Located::Parsing(state) = state.located(listed("80/tcp -> 0.0.0.0:32768\n")).unwrap() else {
        panic!("not located");
    };
    assert_eq!(state.outer, "0.0.0.0:32768");
    let state = state.parsed(Some("0.0.0.0:32768".to_string())).unwrap();
    assert_eq!(state.url, "http://0.0.0.0:32768/run/sort");
    assert_eq!(payload(&state.body.stdin), Ok(b"3 1 2\n".to_vec()));
    let Answered::Done(result) = state.answered(Exchange::Response(response("MSAyIDMK", "", 0, 7))) else {
        panic!("not done");
    };
    assert_eq!(result, Ok(("1 2 3\n".to_string(), String::new(), 0, 7)));
}

#[test]
fn run_decodes_both_streams() {
    let r = run(response("aGVsbG8K", "d2Fybgo=", 0, 1234));
    assert_eq!(r, Ok(("hello\n".to_string(), "warn\n".to_string(), 0, 1234)));
}

#[test]
fn run_keeps_status_and_duration() {
    let r = run(response("", "", -7, u64::MAX));
    assert_eq!(r, Ok((String::new(), String::new(), -7, u64::MAX)));
}

#[test]
fn run_reads_streams_leniently() {
    // 0xff is no UTF-8; "/w==" is its base64
    let r = run(response("/w==", "Yf9i", 0, 1));
    assert_eq!(r, Ok(("\u{fffd}".to_string(), "a\u{fffd}b".to_string(), 0, 1)));
}

#[test]
fn server_error_comes_first() {
    let mut body = response("aGVsbG8K", "d2Fybgo=", 0, 1234);
    body.error = Some("program not found".to_string());
    assert_eq!(
        run(body),
        Err(plain(ErrorKind::RemoteExecution { message: "program not found".to_string() }))
    );
}

#[test]
fn server_error_comes_before_decoding() {
    let mut body = response("not base64!", "???", 3, 9);
    body.error = Some("boom".to_string());
    assert_eq!(run(body), Err(plain(ErrorKind::RemoteExecution { message: "boom".to_string() })));
}

#[test]
fn empty_server_error_is_still_an_error() {
    let mut body = response("aGVsbG8K", "", 0, 1);
    body.error = Some(String::new());
    assert_eq!(run(body), Err(plain(ErrorKind::RemoteExecution { message: String::new() })));
}

#[test]
fn undecodable_stdout_is_a_payload_error() {
    assert_eq!(
        run(response("a!bc", "d2Fybgo=", 0, 1)),
        Err(plain(ErrorKind::PayloadDecode {
            stream: Stream::Stdout,
            fault: DecodeFault::InvalidByte { offset: 1, byte: b'!' }
        }))
    );
}

#[test]
fn undecodable_stderr_is_a_payload_error() {
    assert_eq!(
        run(response("aGVsbG8K", "abcde", 0, 1)),
        Err(plain(ErrorKind::PayloadDecode {
            stream: Stream::Stderr,
            fault: DecodeFault::InvalidLength
        }))
    );
}

#[test]
fn stdout_fault_comes_before_stderr_fault() {
    assert_eq!(
        run(response("abcde", "a!bc", 0, 1)),
        Err(plain(ErrorKind::PayloadDecode {
            stream: Stream::Stdout,
            fault: DecodeFault::InvalidLength
        }))
    );
}

#[test]
fn settle_orders_the_failures() {
    let fault = DecodeFault::InvalidLength;
    assert_eq!(
        settle(Some("e".to_string()), Err(fault), Err(fault), 1, 2),
        Err(plain(ErrorKind::RemoteExecution { message: "e".to_string() }))
    );
    assert_eq!(
        settle(None, Err(fault), Ok(vec![]), 1, 2),
        Err(plain(ErrorKind::PayloadDecode { stream: Stream::Stdout, fault }))
    );
    assert_eq!(
        settle(None, Ok(vec![]), Err(fault), 1, 2),
        Err(plain(ErrorKind::PayloadDecode { stream: Stream::Stderr, fault }))
    );
    assert_eq!(
        settle(None, Ok(b"out".to_vec()), Ok(b"err".to_vec()), 1, 2),
        Ok(("out".to_string(), "err".to_string(), 1, 2))
    );
}

#[test]
fn default_response_is_empty() {
    assert_eq!(InvokeResponseBody::default(), response("", "", 0, 0));
    assert_eq!(run(InvokeResponseBody::default()), Ok((String::new(), String::new(), 0, 0)));
}
