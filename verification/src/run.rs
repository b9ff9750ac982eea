//! One invocation of a program on the server in a container: the request
//! to send, and what to make of the response or of the lack of one.
//!
//! An invocation has two phases. The first resolves the container and the
//! address of its port; the second sends the request and reads the
//! response. Talking to the runtime and to the server is left to the
//! caller, who hands in what came back.

use crate::codec::{
    base64_bytes, base64_text, decode_base64, decode_lossy, decoded, encode_base64, intact,
    lossy_text,
};
use crate::docker::{
    container_id, get_container_id, get_container_log, get_public_addr, interpreted,
    logs_command, port_command, ps_command, public_addr, Output,
};
use crate::error::{
    text_result, DecodeFault, Error, ErrorKind, ErrorKindView, ErrorView, Stream,
};
use crate::text::strings;
use vstd::prelude::*;
use vstd::utf8::{decode_utf8, valid_utf8};

verus! {

/// The body of a request: the program's standard input, as base64.
#[derive(Debug, Clone, PartialEq, Eq)]
pub struct InvokeRequestBody {
    pub stdin: String,
}

/// The body of a response: the two output streams as base64, the exit
/// status, the duration in microseconds, and the server's own error where
/// it had one. Where `error` is set, the other fields mean nothing.
#[derive(Debug, Clone, PartialEq, Eq)]
pub struct InvokeResponseBody {
    pub stdout: String,
    pub stderr: String,
    pub exit_status: i32,
    pub duration: u64,
    pub error: Option<String>,
}

impl Default for InvokeResponseBody {
    fn default() -> (body: InvokeResponseBody)
        ensures
            body.stdout@ == Seq::<char>::empty(),
            body.stderr@ == Seq::<char>::empty(),
            body.exit_status == 0,
            body.duration == 0,
            body.error is None,
    {
        InvokeResponseBody {
            stdout: String::new(),
            stderr: String::new(),
            exit_status: 0,
            duration: 0,
            error: None,
        }
    }
}

/// What a run of a program gave: its standard output, its standard error,
/// its exit status and its duration in microseconds.
pub type Invocation = (String, String, i32, u64);

/// The mathematical value of an `Invocation`.
pub type InvocationView = (Seq<char>, Seq<char>, i32, u64);

/// The view of an invocation or a failure.
pub open spec fn invocation_result(r: Result<Invocation, Error>) -> Result<
    InvocationView,
    ErrorView,
> {
    match r {
        Ok(run) => Ok((run.0@, run.1@, run.2, run.3)),
        Err(e) => Err(e@),
    }
}

/// The address to post the request for `program` to.
pub open spec fn endpoint_of(address: Seq<char>, program: Seq<char>) -> Seq<char> {
    "http://"@ + address + "/run/"@ + program
}

/// The text that stands for a container's log in a message: the log, or
/// where it could not be fetched, the reason why.
pub open spec fn log_text_of(log: Result<Seq<char>, ErrorView>) -> Seq<char> {
    match log {
        Ok(text) => text,
        Err(e) => "Unable to obtain log: "@ + e.message(),
    }
}

/// What a response amounts to, given what decoding its two streams gave.
/// An error of the server comes before everything else; then a fault in
/// the standard output, then one in the standard error.
pub open spec fn settled(
    error: Option<Seq<char>>,
    stdout: Result<Seq<u8>, DecodeFault>,
    stderr: Result<Seq<u8>, DecodeFault>,
    exit_status: i32,
    duration: u64,
) -> Result<InvocationView, ErrorView> {
    match error {
        Some(message) => Err(ErrorView::bare(ErrorKindView::RemoteExecution { message })),
        None => match stdout {
            Err(fault) => Err(
                ErrorView::bare(ErrorKindView::PayloadDecode { stream: Stream::Stdout, fault }),
            ),
            Ok(out) => match stderr {
                Err(fault) => Err(
                    ErrorView::bare(
                        ErrorKindView::PayloadDecode { stream: Stream::Stderr, fault },
                    ),
                ),
                Ok(err) => Ok((lossy_text(out), lossy_text(err), exit_status, duration)),
            },
        },
    }
}

/// What a response amounts to.
pub open spec fn outcome_of(response: InvokeResponseBody) -> Result<InvocationView, ErrorView> {
    settled(
        message_of(response.error),
        base64_bytes(response.stdout@),
        base64_bytes(response.stderr@),
        response.exit_status,
        response.duration,
    )
}

/// The view of an optional text.
pub open spec fn message_of(error: Option<String>) -> Option<Seq<char>> {
    match error {
        Some(message) => Some(message@),
        None => None,
    }
}

/// The text that stands for a container's log in a message.
pub fn log_text(log: Result<String, Error>) -> (text: String)
    ensures
        text@ == log_text_of(text_result(log)),
{
    match log {
        Ok(text) => text,
        Err(e) => {
            let mut text = String::from_str("Unable to obtain log: ");
            text.append(e.message().as_str());
            text
        },
    }
}

/// The address to post the request for `program` to, on the server at
/// `address`.
pub fn endpoint(address: &str, program: &str) -> (url: String)
    ensures
        url@ == endpoint_of(address@, program@),
{
    let mut url = String::from_str("http://");
    url.append(address);
    url.append("/run/");
    url.append(program);
    url
}

/// The body of the request that hands `stdin` to the program. Decoding
/// the body's text gives `stdin` back, byte for byte.
pub fn request_body(stdin: &[u8]) -> (body: InvokeRequestBody)
    ensures
        body.stdin@ == base64_text(stdin@),
        base64_bytes(body.stdin@) == intact(stdin@),
{
    InvokeRequestBody { stdin: encode_base64(stdin) }
}

/// The bytes that a base64 text stands for, taken back from the wire.
pub fn payload(text: &str) -> (r: Result<Vec<u8>, DecodeFault>)
    ensures
        decoded(r) == base64_bytes(text@),
{
    decode_base64(text)
}

/// What a response amounts to, given what decoding its two streams gave:
/// the failure that the server reported, whatever the other fields hold;
/// else the fault in a stream; else the run, with both streams read as
/// text leniently.
pub fn settle(
    error: Option<String>,
    stdout: Result<Vec<u8>, DecodeFault>,
    stderr: Result<Vec<u8>, DecodeFault>,
    exit_status: i32,
    duration: u64,
) -> (r: Result<Invocation, Error>)
    ensures
        invocation_result(r) == settled(
            message_of(error),
            decoded(stdout),
            decoded(stderr),
            exit_status,
            duration,
        ),
        error is Some ==> r is Err,
        r matches Ok(run) ==> (stdout matches Ok(out) ==> (valid_utf8(out@) ==> run.0@
            == decode_utf8(out@))),
        r matches Ok(run) ==> (stderr matches Ok(err) ==> (valid_utf8(err@) ==> run.1@
            == decode_utf8(err@))),
{
    match error {
        Some(message) => Err(Error::new(ErrorKind::RemoteExecution { message })),
        None => match stdout {
            Err(fault) => Err(
                Error::new(ErrorKind::PayloadDecode { stream: Stream::Stdout, fault }),
            ),
            Ok(out) => match stderr {
                Err(fault) => Err(
                    Error::new(ErrorKind::PayloadDecode { stream: Stream::Stderr, fault }),
                ),
                Ok(err) => Ok(
                    (
                        decode_lossy(out.as_slice()),
                        decode_lossy(err.as_slice()),
                        exit_status,
                        duration,
                    ),
                ),
            },
        },
    }
}

/// What the server's response amounts to. A response with an error set is
/// a failure with the server's message, whatever its other fields hold.
/// Otherwise a stream that is no base64 is a failure, the standard output
/// before the standard error, and both streams are read as text leniently.
pub fn run(response: InvokeResponseBody) -> (r: Result<Invocation, Error>)
    ensures
        invocation_result(r) == outcome_of(response),
        response.error matches Some(message) ==> (r matches Err(e) && e@ == ErrorView::bare(
            (ErrorKindView::RemoteExecution { message: message@ }),
        )),
{
    let stdout = decode_base64(response.stdout.as_str());
    let stderr = decode_base64(response.stderr.as_str());
    settle(response.error, stdout, stderr, response.exit_status, response.duration)
}

/// An invocation that is to find its container: the first phase begins.
/// The caller lists the running containers and hands in what came of it.
#[derive(Debug, Clone, PartialEq, Eq)]
pub struct Resolving {
    pub reference: String,
    pub port: u16,
    pub program: String,
    pub stdin: Vec<u8>,
}

/// An invocation that knows its container and is to find the address of
/// its port. The caller lists the container's port mappings.
#[derive(Debug, Clone, PartialEq, Eq)]
pub struct Locating {
    pub container: String,
    pub port: u16,
    pub program: String,
    pub stdin: Vec<u8>,
}

/// An invocation that found an address. The caller reads `outer` as a
/// socket address.
#[derive(Debug, Clone, PartialEq, Eq)]
pub struct Parsing {
    pub container: String,
    pub outer: String,
    pub port: u16,
    pub program: String,
    pub stdin: Vec<u8>,
}

/// An invocation in its second phase. The caller posts `body` to `url`,
/// waits for the response however long it takes, and hands in what came
/// of it.
#[derive(Debug, Clone, PartialEq, Eq)]
pub struct Posting {
    pub container: String,
    pub url: String,
    pub body: InvokeRequestBody,
}

/// What went wrong in an invocation whose message is to carry the log.
#[derive(Debug, Clone, PartialEq, Eq)]
pub enum Pending {
    PortNotExposed,
    Communication { cause: String },
    ResponseParse { cause: String },
}

/// A failed invocation that wants the container's log for its message.
/// The caller fetches the log and hands in what came of it.
#[derive(Debug, Clone, PartialEq, Eq)]
pub struct Diagnosing {
    pub container: String,
    pub failure: Pending,
}

/// What listing the port mappings led to.
#[derive(Debug, Clone, PartialEq, Eq)]
pub enum Located {
    /// The port has an address.
    Parsing(Parsing),
    /// The port is not published.
    Unexposed(Diagnosing),
}

/// What came of posting the request.
#[derive(Debug, Clone, PartialEq, Eq)]
pub enum Exchange {
    /// The server answered, and its answer could be read.
    Response(InvokeResponseBody),
    /// The request did not get through, for the reason given.
    Unreachable { cause: String },
    /// The answer's body could not be read, for the reason given.
    Unreadable { cause: String },
}

/// What the exchange led to.
#[derive(Debug, PartialEq, Eq)]
pub enum Answered {
    /// The invocation is over.
    Done(Result<Invocation, Error>),
    /// The invocation failed.
    Failed(Diagnosing),
}

/// The mathematical value of a `Resolving`.
pub struct ResolvingView {
    pub reference: Seq<char>,
    pub port: u16,
    pub program: Seq<char>,
    pub stdin: Seq<u8>,
}

/// The mathematical value of a `Locating`.
pub struct LocatingView {
    pub container: Seq<char>,
    pub port: u16,
    pub program: Seq<char>,
    pub stdin: Seq<u8>,
}

/// The mathematical value of a `Parsing`.
pub struct ParsingView {
    pub container: Seq<char>,
    pub outer: Seq<char>,
    pub port: u16,
    pub program: Seq<char>,
    pub stdin: Seq<u8>,
}

/// The mathematical value of a `Posting`.
pub struct PostingView {
    pub container: Seq<char>,
    pub url: Seq<char>,
    pub body: Seq<char>,
}

/// The mathematical value of a `Pending`.
pub enum PendingView {
    PortNotExposed,
    Communication { cause: Seq<char> },
    ResponseParse { cause: Seq<char> },
}

/// The mathematical value of a `Diagnosing`.
pub struct DiagnosingView {
    pub container: Seq<char>,
    pub failure: PendingView,
}

/// The mathematical value of a `Located`.
pub enum LocatedView {
    Parsing(ParsingView),
    Unexposed(DiagnosingView),
}

/// The mathematical value of an `Answered`.
pub enum AnsweredView {
    Done(Result<InvocationView, ErrorView>),
    Failed(DiagnosingView),
}

impl View for Resolving {
    type V = ResolvingView;

    open spec fn view(&self) -> ResolvingView {
        ResolvingView {
            reference: self.reference@,
            port: self.port,
            program: self.program@,
            stdin: self.stdin@,
        }
    }
}

impl View for Locating {
    type V = LocatingView;

    open spec fn view(&self) -> LocatingView {
        LocatingView {
            container: self.container@,
            port: self.port,
            program: self.program@,
            stdin: self.stdin@,
        }
    }
}

impl View for Parsing {
    type V = ParsingView;

    open spec fn view(&self) -> ParsingView {
        ParsingView {
            container: self.container@,
            outer: self.outer@,
            port: self.port,
            program: self.program@,
            stdin: self.stdin@,
        }
    }
}

impl View for Posting {
    type V = PostingView;

    open spec fn view(&self) -> PostingView {
        PostingView { container: self.container@, url: self.url@, body: self.body.stdin@ }
    }
}

impl View for Pending {
    type V = PendingView;

    open spec fn view(&self) -> PendingView {
        match *self {
            Pending::PortNotExposed => PendingView::PortNotExposed,
            Pending::Communication { cause } => PendingView::Communication { cause: cause@ },
            Pending::ResponseParse { cause } => PendingView::ResponseParse { cause: cause@ },
        }
    }
}

impl View for Diagnosing {
    type V = DiagnosingView;

    open spec fn view(&self) -> DiagnosingView {
        DiagnosingView { container: self.container@, failure: self.failure@ }
    }
}

impl View for Located {
    type V = LocatedView;

    open spec fn view(&self) -> LocatedView {
        match *self {
            Located::Parsing(state) => LocatedView::Parsing(state@),
            Located::Unexposed(state) => LocatedView::Unexposed(state@),
        }
    }
}

impl View for Answered {
    type V = AnsweredView;

    open spec fn view(&self) -> AnsweredView {
        match *self {
            Answered::Done(r) => AnsweredView::Done(invocation_result(r)),
            Answered::Failed(state) => AnsweredView::Failed(state@),
        }
    }
}

/// The view of the state after the container was looked up, or of a
/// failure.
pub open spec fn locating_result(r: Result<Locating, Error>) -> Result<LocatingView, ErrorView> {
    match r {
        Ok(state) => Ok(state@),
        Err(e) => Err(e@),
    }
}

/// The view of the state after the port was looked up, or of a failure.
pub open spec fn located_result(r: Result<Located, Error>) -> Result<LocatedView, ErrorView> {
    match r {
        Ok(state) => Ok(state@),
        Err(e) => Err(e@),
    }
}

/// The view of the state after the address was read, or of a failure.
pub open spec fn posting_result(r: Result<Posting, Error>) -> Result<PostingView, ErrorView> {
    match r {
        Ok(state) => Ok(state@),
        Err(e) => Err(e@),
    }
}

impl ResolvingView {
    /// Where listing the containers leads: to the container's canonical
    /// id, or to the failure of the listing, or to the failure that says
    /// that no running container goes by the reference.
    pub open spec fn resolved(self, outcome: Result<Output, String>) -> Result<
        LocatingView,
        ErrorView,
    > {
        match container_id(outcome, self.reference) {
            Err(e) => Err(e),
            Ok(None) => Err(
                ErrorView::bare(ErrorKindView::ContainerNotFound { reference: self.reference }),
            ),
            Ok(Some(id)) => Ok(
                LocatingView {
                    container: id,
                    port: self.port,
                    program: self.program,
                    stdin: self.stdin,
                },
            ),
        }
    }
}

impl LocatingView {
    /// Where listing the port mappings leads: to the published address,
    /// or to the failure of the listing, or, where the port is not
    /// published, to fetching the log.
    pub open spec fn located(self, outcome: Result<Output, String>) -> Result<
        LocatedView,
        ErrorView,
    > {
        match public_addr(outcome, self.port) {
            Err(e) => Err(e),
            Ok(None) => Ok(
                LocatedView::Unexposed(
                    DiagnosingView {
                        container: self.container,
                        failure: PendingView::PortNotExposed,
                    },
                ),
            ),
            Ok(Some(outer)) => Ok(
                LocatedView::Parsing(
                    ParsingView {
                        container: self.container,
                        outer,
                        port: self.port,
                        program: self.program,
                        stdin: self.stdin,
                    },
                ),
            ),
        }
    }
}

impl ParsingView {
    /// Where reading the address leads: to the request, or to the failure
    /// that says that the address is no socket address.
    pub open spec fn parsed(self, canonical: Option<Seq<char>>) -> Result<
        PostingView,
        ErrorView,
    > {
        match canonical {
            None => Err(
                ErrorView::bare(
                    ErrorKindView::AddressParse {
                        container: self.container,
                        address: self.outer,
                        port: self.port,
                    },
                ),
            ),
            Some(address) => Ok(
                PostingView {
                    container: self.container,
                    url: endpoint_of(address, self.program),
                    body: base64_text(self.stdin),
                },
            ),
        }
    }
}

impl PostingView {
    /// Where the exchange leads: to the end of the invocation, or to
    /// fetching the log.
    pub open spec fn answered(self, exchange: Exchange) -> AnsweredView {
        match exchange {
            Exchange::Response(response) => AnsweredView::Done(outcome_of(response)),
            Exchange::Unreachable { cause } => AnsweredView::Failed(
                DiagnosingView {
                    container: self.container,
                    failure: PendingView::Communication { cause: cause@ },
                },
            ),
            Exchange::Unreadable { cause } => AnsweredView::Failed(
                DiagnosingView {
                    container: self.container,
                    failure: PendingView::ResponseParse { cause: cause@ },
                },
            ),
        }
    }
}

impl DiagnosingView {
    /// The failure, with the log in its message, or with the reason why
    /// the log could not be fetched.
    pub open spec fn diagnosed(self, outcome: Result<Output, String>) -> ErrorView {
        let log = log_text_of(interpreted(outcome));
        ErrorView::bare(
            match self.failure {
                PendingView::PortNotExposed => ErrorKindView::PortNotExposed {
                    container: self.container,
                    log,
                },
                PendingView::Communication { cause } => ErrorKindView::Communication {
                    cause,
                    log,
                },
                PendingView::ResponseParse { cause } => ErrorKindView::ResponseParse {
                    cause,
                    log,
                },
            },
        )
    }
}

impl Resolving {
    /// The arguments to call the runtime's client with.
    pub fn command(&self) -> (args: Vec<String>)
        ensures
            strings(args@) == seq!["ps"@, "--format"@, "{{.ID}}:{{.Names}}"@],
    {
        ps_command()
    }

    /// Takes the outcome of the call.
    pub fn resolved(self, outcome: Result<Output, String>) -> (r: Result<Locating, Error>)
        ensures
            locating_result(r) == self@.resolved(outcome),
    {
        match get_container_id(outcome, self.reference.as_str()) {
            Err(e) => Err(e),
            Ok(None) => Err(
                Error::new(ErrorKind::ContainerNotFound { reference: self.reference }),
            ),
            Ok(Some(container)) => Ok(
                Locating {
                    container,
                    port: self.port,
                    program: self.program,
                    stdin: self.stdin,
                },
            ),
        }
    }
}

impl Locating {
    /// The arguments to call the runtime's client with.
    pub fn command(&self) -> (args: Vec<String>)
        ensures
            strings(args@) == seq!["port"@, self@.container],
    {
        port_command(self.container.as_str())
    }

    /// Takes the outcome of the call.
    pub fn located(self, outcome: Result<Output, String>) -> (r: Result<Located, Error>)
        ensures
            located_result(r) == self@.located(outcome),
    {
        match get_public_addr(outcome, self.port) {
            Err(e) => Err(e),
            Ok(None) => Ok(
                Located::Unexposed(
                    Diagnosing { container: self.container, failure: Pending::PortNotExposed },
                ),
            ),
            Ok(Some(outer)) => Ok(
                Located::Parsing(
                    Parsing {
                        container: self.container,
                        outer,
                        port: self.port,
                        program: self.program,
                        stdin: self.stdin,
                    },
                ),
            ),
        }
    }
}

impl Parsing {
    /// Takes what reading `outer` as a socket address gave: the address
    /// in its canonical form, or nothing where it is none.
    pub fn parsed(self, canonical: Option<String>) -> (r: Result<Posting, Error>)
        ensures
            posting_result(r) == self@.parsed(message_of(canonical)),
            r matches Ok(state) ==> base64_bytes(state.body.stdin@) == intact(self.stdin@),
    {
        match canonical {
            None => Err(
                Error::new(
                    ErrorKind::AddressParse {
                        container: self.container,
                        address: self.outer,
                        port: self.port,
                    },
                ),
            ),
            Some(address) => Ok(
                Posting {
                    container: self.container,
                    url: endpoint(address.as_str(), self.program.as_str()),
                    body: request_body(self.stdin.as_slice()),
                },
            ),
        }
    }
}

impl Posting {
    /// Takes what came of the exchange.
    pub fn answered(self, exchange: Exchange) -> (next: Answered)
        ensures
            next@ == self@.answered(exchange),
    {
        match exchange {
            Exchange::Response(response) => Answered::Done(run(response)),
            Exchange::Unreachable { cause } => Answered::Failed(
                Diagnosing { container: self.container, failure: Pending::Communication { cause } },
            ),
            Exchange::Unreadable { cause } => Answered::Failed(
                Diagnosing { container: self.container, failure: Pending::ResponseParse { cause } },
            ),
        }
    }
}

impl Diagnosing {
    /// The arguments to call the runtime's client with.
    pub fn command(&self) -> (args: Vec<String>)
        ensures
            strings(args@) == seq!["logs"@, self@.container],
    {
        logs_command(self.container.as_str())
    }

    /// Takes the outcome of the call and gives the failure of the
    /// invocation. The failure stays what it was, whatever came of the
    /// call.
    pub fn diagnosed(self, outcome: Result<Output, String>) -> (e: Error)
        ensures
            e@ == self@.diagnosed(outcome),
    {
        let log = log_text(get_container_log(outcome));
        match self.failure {
            Pending::PortNotExposed => Error::new(
                ErrorKind::PortNotExposed { container: self.container, log },
            ),
            Pending::Communication { cause } => Error::new(
                ErrorKind::Communication { cause, log },
            ),
            Pending::ResponseParse { cause } => Error::new(
                ErrorKind::ResponseParse { cause, log },
            ),
        }
    }
}

} // verus!
