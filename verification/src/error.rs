//! The failures of the benchmark, each with the layers of context that were
//! added while it travelled upwards, and the text shown for it.

use crate::text::{decimal, decimal_string, signed_decimal, signed_string, strings};
use vstd::prelude::*;

verus! {

/// One of the two output streams of a program run.
#[derive(Debug, Clone, Copy, PartialEq, Eq)]
pub enum Stream {
    Stdout,
    Stderr,
}

/// Why a text is not valid base64.
#[derive(Debug, Clone, Copy, PartialEq, Eq)]
pub enum DecodeFault {
    /// A byte outside the alphabet, at the given offset.
    InvalidByte { offset: usize, byte: u8 },
    /// The number of symbols fits no whole number of bytes.
    InvalidLength,
    /// The last symbol carries bits that would be discarded.
    InvalidLastSymbol { offset: usize, byte: u8 },
}

/// What went wrong.
#[derive(Debug, Clone, PartialEq, Eq)]
pub enum ErrorKind {
    /// The container runtime's client could not be started.
    RuntimeInvocation { cause: String },
    /// The container runtime's client ended with a status other than zero.
    RuntimeExecution { exit_code: i32, stderr: String },
    /// The client failed and what it wrote to its error stream is no UTF-8.
    RuntimeOutputNotDecodable { exit_code: i32 },
    /// No running container has an id or a name that begins with the reference.
    ContainerNotFound { reference: String },
    /// The container publishes no address for the port.
    PortNotExposed { container: String, log: String },
    /// The published address is no socket address.
    AddressParse { container: String, address: String, port: u16 },
    /// The id that the runtime returned is shorter than a short id.
    Truncation { id: String },
    /// The request did not reach the server, or no response came back.
    Communication { cause: String, log: String },
    /// The response's body could not be read as a response.
    ResponseParse { cause: String, log: String },
    /// The server reported an error of its own.
    RemoteExecution { message: String },
    /// An output stream in the response is not valid base64.
    PayloadDecode { stream: Stream, fault: DecodeFault },
    /// The program's output is not the expected output.
    OutputMismatch { actual: String, expected: String },
    /// The program ended with a status other than zero.
    NonZeroExitStatus { exit_status: i32, stdout: String, stderr: String },
}

/// A failure: what went wrong, and the context added at each boundary that
/// it crossed, innermost first.
#[derive(Debug, Clone, PartialEq, Eq)]
pub struct Error {
    pub kind: ErrorKind,
    pub context: Vec<String>,
}

/// The mathematical value of an `ErrorKind`.
pub enum ErrorKindView {
    RuntimeInvocation { cause: Seq<char> },
    RuntimeExecution { exit_code: i32, stderr: Seq<char> },
    RuntimeOutputNotDecodable { exit_code: i32 },
    ContainerNotFound { reference: Seq<char> },
    PortNotExposed { container: Seq<char>, log: Seq<char> },
    AddressParse { container: Seq<char>, address: Seq<char>, port: u16 },
    Truncation { id: Seq<char> },
    Communication { cause: Seq<char>, log: Seq<char> },
    ResponseParse { cause: Seq<char>, log: Seq<char> },
    RemoteExecution { message: Seq<char> },
    PayloadDecode { stream: Stream, fault: DecodeFault },
    OutputMismatch { actual: Seq<char>, expected: Seq<char> },
    NonZeroExitStatus { exit_status: i32, stdout: Seq<char>, stderr: Seq<char> },
}

/// The mathematical value of an `Error`.
pub struct ErrorView {
    pub kind: ErrorKindView,
    pub context: Seq<Seq<char>>,
}

impl View for ErrorKind {
    type V = ErrorKindView;

    open spec fn view(&self) -> ErrorKindView {
        match *self {
            ErrorKind::RuntimeInvocation { cause } => ErrorKindView::RuntimeInvocation {
                cause: cause@,
            },
            ErrorKind::RuntimeExecution { exit_code, stderr } => ErrorKindView::RuntimeExecution {
                exit_code,
                stderr: stderr@,
            },
            ErrorKind::RuntimeOutputNotDecodable {
                exit_code,
            } => ErrorKindView::RuntimeOutputNotDecodable { exit_code },
            ErrorKind::ContainerNotFound { reference } => ErrorKindView::ContainerNotFound {
                reference: reference@,
            },
            ErrorKind::PortNotExposed { container, log } => ErrorKindView::PortNotExposed {
                container: container@,
                log: log@,
            },
            ErrorKind::AddressParse { container, address, port } => ErrorKindView::AddressParse {
                container: container@,
                address: address@,
                port,
            },
            ErrorKind::Truncation { id } => ErrorKindView::Truncation { id: id@ },
            ErrorKind::Communication { cause, log } => ErrorKindView::Communication {
                cause: cause@,
                log: log@,
            },
            ErrorKind::ResponseParse { cause, log } => ErrorKindView::ResponseParse {
                cause: cause@,
                log: log@,
            },
            ErrorKind::RemoteExecution { message } => ErrorKindView::RemoteExecution {
                message: message@,
            },
            ErrorKind::PayloadDecode { stream, fault } => ErrorKindView::PayloadDecode {
                stream,
                fault,
            },
            ErrorKind::OutputMismatch { actual, expected } => ErrorKindView::OutputMismatch {
                actual: actual@,
                expected: expected@,
            },
            ErrorKind::NonZeroExitStatus {
                exit_status,
                stdout,
                stderr,
            } => ErrorKindView::NonZeroExitStatus {
                exit_status,
                stdout: stdout@,
                stderr: stderr@,
            },
        }
    }
}

impl View for Error {
    type V = ErrorView;

    open spec fn view(&self) -> ErrorView {
        ErrorView { kind: self.kind@, context: strings(self.context@) }
    }
}

/// The view of a text or a failure.
pub open spec fn text_result(r: Result<String, Error>) -> Result<Seq<char>, ErrorView> {
    match r {
        Ok(t) => Ok(t@),
        Err(e) => Err(e@),
    }
}

/// The view of an optional text or a failure.
pub open spec fn optional_result(r: Result<Option<String>, Error>) -> Result<
    Option<Seq<char>>,
    ErrorView,
> {
    match r {
        Ok(Some(t)) => Ok(Some(t@)),
        Ok(None) => Ok(None),
        Err(e) => Err(e@),
    }
}

/// The view of a success without a value or a failure.
pub open spec fn unit_result(r: Result<(), Error>) -> Result<(), ErrorView> {
    match r {
        Ok(_) => Ok(()),
        Err(e) => Err(e@),
    }
}

/// The line between a layer of a message and the layer below it.
pub open spec fn caused_by() -> Seq<char> {
    "\nCaused by: "@
}

/// The rule drawn around a quoted output.
pub open spec fn rule() -> Seq<char> {
    "--------------"@
}

impl Stream {
    /// The stream's name.
    pub open spec fn name(self) -> Seq<char> {
        match self {
            Stream::Stdout => "stdout"@,
            Stream::Stderr => "stderr"@,
        }
    }

    /// The stream's name.
    pub fn label(self) -> (s: &'static str)
        ensures
            s@ == self.name(),
    {
        match self {
            Stream::Stdout => "stdout",
            Stream::Stderr => "stderr",
        }
    }
}

impl DecodeFault {
    /// The text that describes the fault.
    pub open spec fn text(self) -> Seq<char> {
        match self {
            DecodeFault::InvalidByte { offset, byte } => "Invalid byte "@ + decimal(byte as nat)
                + ", offset "@ + decimal(offset as nat) + "."@,
            DecodeFault::InvalidLength => "Encoded text cannot have a 6-bit remainder."@,
            DecodeFault::InvalidLastSymbol { offset, byte } => "Invalid last symbol "@ + decimal(
                byte as nat,
            ) + ", offset "@ + decimal(offset as nat) + "."@,
        }
    }

    /// The text that describes the fault.
    pub fn describe(self) -> (s: String)
        ensures
            s@ == self.text(),
    {
        match self {
            DecodeFault::InvalidByte { offset, byte } => {
                let mut s = String::from_str("Invalid byte ");
                s.append(decimal_string(byte as u64).as_str());
                s.append(", offset ");
                s.append(decimal_string(offset as u64).as_str());
                s.append(".");
                s
            },
            DecodeFault::InvalidLength => String::from_str(
                "Encoded text cannot have a 6-bit remainder.",
            ),
            DecodeFault::InvalidLastSymbol { offset, byte } => {
                let mut s = String::from_str("Invalid last symbol ");
                s.append(decimal_string(byte as u64).as_str());
                s.append(", offset ");
                s.append(decimal_string(offset as u64).as_str());
                s.append(".");
                s
            },
        }
    }
}

impl ErrorKindView {
    /// The text for what went wrong, without the context added later.
    pub open spec fn headline(self) -> Seq<char> {
        match self {
            ErrorKindView::RuntimeInvocation { cause } => "Unable to invoke docker client"@
                + caused_by() + cause,
            ErrorKindView::RuntimeExecution {
                exit_code,
                stderr,
            } => "Invocation of docker client terminated unsuccessfully with exit code "@
                + signed_decimal(exit_code as int) + ": "@ + stderr,
            ErrorKindView::RuntimeOutputNotDecodable {
                exit_code,
            } => "Invocation of docker client terminated unsuccessfully with exit code "@
                + signed_decimal(exit_code as int)
                + "\n: stderr of docker client is not decodable (contains non-utf8 signs)"@,
            ErrorKindView::ContainerNotFound {
                reference,
            } => "Unable to find a running container with id "@ + reference + "."@,
            ErrorKindView::PortNotExposed {
                container,
                log,
            } => "Unable to find public address of cds server running in container "@ + container
                + ". Is the port exposed?\nContainer Log:\n"@ + log,
            ErrorKindView::AddressParse {
                container,
                address,
                port,
            } => "unable to parse container's "@ + container + " public address ("@ + address
                + ") associate with private port "@ + decimal(port as nat),
            ErrorKindView::Truncation { id } => "Container id is shorter than 12 characters: "@
                + id,
            ErrorKindView::Communication {
                cause,
                log,
            } => "Server Communication Issue\nServer Container Log:\n"@ + log + caused_by()
                + cause,
            ErrorKindView::ResponseParse {
                cause,
                log,
            } => "Server Response could not be parsed\nServer Container Log:\n"@ + log
                + caused_by() + cause,
            ErrorKindView::RemoteExecution { message } => message,
            ErrorKindView::PayloadDecode { stream, fault } => "Could not decode "@ + stream.name()
                + caused_by() + fault.text(),
            ErrorKindView::OutputMismatch {
                actual,
                expected,
            } => "Measurement run terminated with unexpected output. actual stdout:\n"@ + rule()
                + "\n"@ + actual + rule() + "\nexpected stdout:\n"@ + rule() + "\n"@ + expected
                + rule(),
            ErrorKindView::NonZeroExitStatus {
                exit_status,
                stdout,
                stderr,
            } => "Measurement run terminated with non-zero exit status! exit_status: "@
                + signed_decimal(exit_status as int) + "\nstdout:\n"@ + rule() + "\n"@ + stdout
                + rule() + "\nstderr:\n"@ + rule() + "\n"@ + stderr + rule(),
        }
    }
}

/// The layers of context from the outermost inwards, each followed by the
/// line that introduces its cause, and `root` at the end.
pub open spec fn layered(context: Seq<Seq<char>>, root: Seq<char>) -> Seq<char>
    decreases context.len(),
{
    if context.len() == 0 {
        root
    } else {
        context.last() + caused_by() + layered(context.drop_last(), root)
    }
}

impl ErrorView {
    /// The failure with no context yet.
    pub open spec fn bare(kind: ErrorKindView) -> ErrorView {
        ErrorView { kind, context: Seq::empty() }
    }

    /// The failure with one more layer of context around it.
    pub open spec fn chain(self, layer: Seq<char>) -> ErrorView {
        ErrorView { kind: self.kind, context: self.context.push(layer) }
    }

    /// The whole message: the context from the outermost layer inwards, then
    /// what went wrong.
    pub open spec fn message(self) -> Seq<char> {
        layered(self.context, self.kind.headline())
    }
}

impl ErrorKind {
    /// The text for what went wrong, without the context added later.
    pub fn headline(&self) -> (s: String)
        ensures
            s@ == self@.headline(),
    {
        match self {
            ErrorKind::RuntimeInvocation { cause } => {
                let mut s = String::from_str("Unable to invoke docker client");
                s.append("\nCaused by: ");
                s.append(cause.as_str());
                s
            },
            ErrorKind::RuntimeExecution { exit_code, stderr } => {
                let mut s = String::from_str(
                    "Invocation of docker client terminated unsuccessfully with exit code ",
                );
                s.append(signed_string(*exit_code as i64).as_str());
                s.append(": ");
                s.append(stderr.as_str());
                s
            },
            ErrorKind::RuntimeOutputNotDecodable { exit_code } => {
                let mut s = String::from_str(
                    "Invocation of docker client terminated unsuccessfully with exit code ",
                );
                s.append(signed_string(*exit_code as i64).as_str());
                s.append(
                    "\n: stderr of docker client is not decodable (contains non-utf8 signs)",
                );
                s
            },
            ErrorKind::ContainerNotFound { reference } => {
                let mut s = String::from_str("Unable to find a running container with id ");
                s.append(reference.as_str());
                s.append(".");
                s
            },
            ErrorKind::PortNotExposed { container, log } => {
                let mut s = String::from_str(
                    "Unable to find public address of cds server running in container ",
                );
                s.append(container.as_str());
                s.append(". Is the port exposed?\nContainer Log:\n");
                s.append(log.as_str());
                s
            },
            ErrorKind::AddressParse { container, address, port } => {
                let mut s = String::from_str("unable to parse container's ");
                s.append(container.as_str());
                s.append(" public address (");
                s.append(address.as_str());
                s.append(") associate with private port ");
                s.append(decimal_string(*port as u64).as_str());
                s
            },
            ErrorKind::Truncation { id } => {
                let mut s = String::from_str("Container id is shorter than 12 characters: ");
                s.append(id.as_str());
                s
            },
            ErrorKind::Communication { cause, log } => {
                let mut s = String::from_str(
                    "Server Communication Issue\nServer Container Log:\n",
                );
                s.append(log.as_str());
                s.append("\nCaused by: ");
                s.append(cause.as_str());
                s
            },
            ErrorKind::ResponseParse { cause, log } => {
                let mut s = String::from_str(
                    "Server Response could not be parsed\nServer Container Log:\n",
                );
                s.append(log.as_str());
                s.append("\nCaused by: ");
                s.append(cause.as_str());
                s
            },
            ErrorKind::RemoteExecution { message } => message.clone(),
            ErrorKind::PayloadDecode { stream, fault } => {
                let mut s = String::from_str("Could not decode ");
                s.append(stream.label());
                s.append("\nCaused by: ");
                s.append(fault.describe().as_str());
                s
            },
            ErrorKind::OutputMismatch { actual, expected } => {
                let mut s = String::from_str(
                    "Measurement run terminated with unexpected output. actual stdout:\n",
                );
                s.append("--------------");
                s.append("\n");
                s.append(actual.as_str());
                s.append("--------------");
                s.append("\nexpected stdout:\n");
                s.append("--------------");
                s.append("\n");
                s.append(expected.as_str());
                s.append("--------------");
                s
            },
            ErrorKind::NonZeroExitStatus { exit_status, stdout, stderr } => {
                let mut s = String::from_str(
                    "Measurement run terminated with non-zero exit status! exit_status: ",
                );
                s.append(signed_string(*exit_status as i64).as_str());
                s.append("\nstdout:\n");
                s.append("--------------");
                s.append("\n");
                s.append(stdout.as_str());
                s.append("--------------");
                s.append("\nstderr:\n");
                s.append("--------------");
                s.append("\n");
                s.append(stderr.as_str());
                s.append("--------------");
                s
            },
        }
    }
}

impl Error {
    /// A failure with no context yet.
    pub fn new(kind: ErrorKind) -> (e: Error)
        ensures
            e@ == ErrorView::bare(kind@),
    {
        let e = Error { kind, context: Vec::new() };
        assert(e@.context =~= Seq::empty());
        e
    }

    /// The failure with one more layer of context around it.
    pub fn chain(self, layer: &str) -> (e: Error)
        ensures
            e@ == self@.chain(layer@),
    {
        let mut context = self.context;
        let ghost before = context@;
        context.push(String::from_str(layer));
        let e = Error { kind: self.kind, context };
        assert(e@.context =~= strings(before).push(layer@));
        e
    }

    /// The whole message: the context from the outermost layer inwards, each
    /// layer followed by the line that introduces its cause, then what went
    /// wrong.
    pub fn message(&self) -> (s: String)
        ensures
            s@ == self@.message(),
    {
        let mut s = String::new();
        let mut i: usize = self.context.len();
        let ghost root = self.kind@.headline();
        let ghost layers = strings(self.context@);
        assert(layers.subrange(0, i as int) =~= layers);
        while i > 0
            invariant
                i <= self.context.len(),
                layers == strings(self.context@),
                s@ + layered(layers.subrange(0, i as int), root) == layered(layers, root),
            decreases i,
        {
            let ghost upto = layers.subrange(0, i as int);
            i -= 1;
            s.append(self.context[i].as_str());
            s.append("\nCaused by: ");
            assert(upto.drop_last() =~= layers.subrange(0, i as int));
        }
        let headline = self.kind.headline();
        s.append(headline.as_str());
        s
    }
}

} // verus!
