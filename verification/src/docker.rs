//! The container runtime's command-line client, seen from both sides of a
//! call: the arguments to start it with, and what to make of its output.
//!
//! Starting the client is left to the caller. Each operation is a pair: a
//! function that gives the arguments, and one that takes the outcome of
//! the call and gives the operation's result.

use crate::codec::{decode_lossy, decode_strict, lossy_text};
use crate::error::{
    optional_result, text_result, unit_result, Error, ErrorKind, ErrorKindView, ErrorView,
};
use crate::text::{
    decimal, decimal_string, digit, optional, same_text, split, split_str, starts_with, strings,
    texts, trim, trimmed,
};
use vstd::prelude::*;
use vstd::utf8::{decode_utf8, valid_utf8};

verus! {

/// What a finished call of the client left behind.
#[derive(Debug, Clone, PartialEq, Eq)]
pub struct Output {
    /// The exit code, where the client ended with one. Zero is success.
    pub code: Option<i32>,
    /// What the client wrote to its standard output.
    pub stdout: Vec<u8>,
    /// What the client wrote to its standard error.
    pub stderr: Vec<u8>,
}

/// The number of characters in a short id.
pub const SHORT_ID_LEN: usize = 12;

/// The exit code reported for a client that ended with `code`.
pub open spec fn exit_code(code: Option<i32>) -> i32 {
    match code {
        Some(c) => c,
        None => -1i32,
    }
}

/// What a call of the client amounts to: its standard output as text where
/// it ended with exit code zero, and otherwise the failure that says why it
/// did not. An outcome of `Err` means that the client could not be started,
/// for the reason given.
pub open spec fn interpreted(outcome: Result<Output, String>) -> Result<Seq<char>, ErrorView> {
    match outcome {
        Err(cause) => Err(ErrorView::bare(ErrorKindView::RuntimeInvocation { cause: cause@ })),
        Ok(output) => if output.code == Some(0i32) {
            Ok(lossy_text(output.stdout@))
        } else if valid_utf8(output.stderr@) {
            Err(
                ErrorView::bare(
                    ErrorKindView::RuntimeExecution {
                        exit_code: exit_code(output.code),
                        stderr: decode_utf8(output.stderr@),
                    },
                ),
            )
        } else {
            Err(
                ErrorView::bare(
                    ErrorKindView::RuntimeOutputNotDecodable { exit_code: exit_code(output.code) },
                ),
            )
        },
    }
}

/// What asking the client for its version amounts to.
pub open spec fn checked(outcome: Result<Output, String>) -> Result<(), ErrorView> {
    match interpreted(outcome) {
        Ok(_) => Ok(()),
        Err(e) => Err(e.chain("Invoking docker client failed!"@)),
    }
}

/// What listing the containers amounts to for the reference `query`.
pub open spec fn container_id(outcome: Result<Output, String>, query: Seq<char>) -> Result<
    Option<Seq<char>>,
    ErrorView,
> {
    match interpreted(outcome) {
        Ok(listing) => Ok(resolved(listing, ":"@, query)),
        Err(e) => Err(e),
    }
}

/// What listing the images amounts to for the reference `query`.
pub open spec fn image_id(outcome: Result<Output, String>, query: Seq<char>) -> Result<
    Option<Seq<char>>,
    ErrorView,
> {
    match interpreted(outcome) {
        Ok(listing) => Ok(resolved(listing, " "@, query)),
        Err(e) => Err(e),
    }
}

/// What listing the port mappings of a container amounts to for `port`.
pub open spec fn public_addr(outcome: Result<Output, String>, port: u16) -> Result<
    Option<Seq<char>>,
    ErrorView,
> {
    match interpreted(outcome) {
        Ok(listing) => Ok(published(listing, port)),
        Err(e) => Err(e),
    }
}

/// What starting a container amounts to.
pub open spec fn started(outcome: Result<Output, String>) -> Result<Seq<char>, ErrorView> {
    match interpreted(outcome) {
        Ok(printed) => short_id_of(printed),
        Err(e) => Err(e),
    }
}

/// What ending a container amounts to.
pub open spec fn stopped(outcome: Result<Output, String>) -> Result<(), ErrorView> {
    match interpreted(outcome) {
        Ok(_) => Ok(()),
        Err(e) => Err(e),
    }
}

/// The line feed that ends each line of a listing.
pub open spec fn line_feed() -> Seq<char> {
    "\n"@
}

/// The two fields of a line that splits into exactly two at `sep`.
pub open spec fn pair(line: Seq<char>, sep: Seq<char>) -> Option<(Seq<char>, Seq<char>)> {
    let fields = split(line, sep);
    if fields.len() == 2 {
        Some((fields[0], fields[1]))
    } else {
        None
    }
}

/// The line is an entry, an id and a name, and `query` is a prefix of one
/// of the two.
pub open spec fn entry_matches(line: Seq<char>, sep: Seq<char>, query: Seq<char>) -> bool {
    match pair(line, sep) {
        Some((id, name)) => query.is_prefix_of(id) || query.is_prefix_of(name),
        None => false,
    }
}

/// The id of the first line that is an entry matching `query`.
pub open spec fn first_match(lines: Seq<Seq<char>>, sep: Seq<char>, query: Seq<char>) -> Option<
    Seq<char>,
>
    decreases lines.len(),
{
    if lines.len() == 0 {
        None
    } else if entry_matches(lines[0], sep, query) {
        Some(split(lines[0], sep)[0])
    } else {
        first_match(lines.drop_first(), sep, query)
    }
}

/// The id that a listing gives for `query`: that of the first of its lines
/// that is an entry matching `query`.
pub open spec fn resolved(listing: Seq<char>, sep: Seq<char>, query: Seq<char>) -> Option<
    Seq<char>,
> {
    first_match(split(listing, line_feed()), sep, query)
}

/// The way a port listing writes the TCP port `port` of a container.
pub open spec fn tcp_port(port: u16) -> Seq<char> {
    decimal(port as nat) + "/tcp"@
}

/// The line maps exactly `inner` to an outer address.
pub open spec fn maps(line: Seq<char>, inner: Seq<char>) -> bool {
    match pair(line, " -> "@) {
        Some((left, outer)) => left == inner,
        None => false,
    }
}

/// The outer address of the first line that maps `inner`.
pub open spec fn first_mapping(lines: Seq<Seq<char>>, inner: Seq<char>) -> Option<Seq<char>>
    decreases lines.len(),
{
    if lines.len() == 0 {
        None
    } else if maps(lines[0], inner) {
        Some(split(lines[0], " -> "@)[1])
    } else {
        first_mapping(lines.drop_first(), inner)
    }
}

/// The address under which a port listing publishes the TCP port `port`.
pub open spec fn published(listing: Seq<char>, port: u16) -> Option<Seq<char>> {
    first_mapping(split(listing, line_feed()), tcp_port(port))
}

/// The short id in the text that the runtime prints for a new container:
/// the first twelve characters of the text without the white space around
/// it, where it has that many.
pub open spec fn short_id_of(text: Seq<char>) -> Result<Seq<char>, ErrorView> {
    let id = trim(text);
    if id.len() >= SHORT_ID_LEN {
        Ok(id.subrange(0, SHORT_ID_LEN as int))
    } else {
        Err(ErrorView::bare(ErrorKindView::Truncation { id }))
    }
}

/// `first_match` gives the id of the first matching line in the order of
/// the listing, and nothing exactly when no line matches.
pub proof fn lemma_first_match(lines: Seq<Seq<char>>, sep: Seq<char>, query: Seq<char>)
    ensures
        match first_match(lines, sep, query) {
            Some(id) => exists|i: int|
                0 <= i < lines.len() && entry_matches(#[trigger] lines[i], sep, query) && id
                    == split(lines[i], sep)[0] && forall|j: int|
                    0 <= j < i ==> !entry_matches(#[trigger] lines[j], sep, query),
            None => forall|i: int|
                0 <= i < lines.len() ==> !entry_matches(#[trigger] lines[i], sep, query),
        },
    decreases lines.len(),
{
    if lines.len() == 0 {
    } else if entry_matches(lines[0], sep, query) {
        assert(0 <= 0 < lines.len() && entry_matches(lines[0], sep, query));
    } else {
        let rest = lines.drop_first();
        lemma_first_match(rest, sep, query);
        match first_match(rest, sep, query) {
            Some(id) => {
                let i = choose|i: int|
                    0 <= i < rest.len() && entry_matches(#[trigger] rest[i], sep, query) && id
                        == split(rest[i], sep)[0] && forall|j: int|
                        0 <= j < i ==> !entry_matches(#[trigger] rest[j], sep, query);
                assert(rest[i] == lines[i + 1]);
                assert forall|j: int| 0 <= j < i + 1 implies !entry_matches(
                    #[trigger] lines[j],
                    sep,
                    query,
                ) by {
                    if j > 0 {
                        assert(lines[j] == rest[j - 1]);
                    }
                }
                assert(0 <= i + 1 < lines.len() && entry_matches(lines[i + 1], sep, query));
            },
            None => {
                assert forall|i: int| 0 <= i < lines.len() implies !entry_matches(
                    #[trigger] lines[i],
                    sep,
                    query,
                ) by {
                    if i > 0 {
                        assert(lines[i] == rest[i - 1]);
                    }
                }
            },
        }
    }
}

/// A line that does not split into exactly two fields is ignored: the
/// listing resolves as it does without that line.
pub proof fn lemma_malformed_line_ignored(
    lines: Seq<Seq<char>>,
    i: int,
    sep: Seq<char>,
    query: Seq<char>,
)
    requires
        0 <= i < lines.len(),
        split(lines[i], sep).len() != 2,
    ensures
        first_match(lines.remove(i), sep, query) == first_match(lines, sep, query),
    decreases lines.len(),
{
    if i == 0 {
        assert(lines.remove(0) =~= lines.drop_first());
    } else {
        let rest = lines.drop_first();
        assert(lines.remove(i)[0] == lines[0]);
        assert(lines.remove(i).drop_first() =~= rest.remove(i - 1));
        lemma_malformed_line_ignored(rest, i - 1, sep, query);
    }
}

/// `first_mapping` gives the outer address of the first line that maps
/// exactly `inner`, and nothing exactly when no line does.
pub proof fn lemma_first_mapping(lines: Seq<Seq<char>>, inner: Seq<char>)
    ensures
        match first_mapping(lines, inner) {
            Some(outer) => exists|i: int|
                0 <= i < lines.len() && maps(#[trigger] lines[i], inner) && outer == split(
                    lines[i],
                    " -> "@,
                )[1] && forall|j: int| 0 <= j < i ==> !maps(#[trigger] lines[j], inner),
            None => forall|i: int| 0 <= i < lines.len() ==> !maps(#[trigger] lines[i], inner),
        },
    decreases lines.len(),
{
    if lines.len() == 0 {
    } else if maps(lines[0], inner) {
        assert(0 <= 0 < lines.len() && maps(lines[0], inner));
    } else {
        let rest = lines.drop_first();
        lemma_first_mapping(rest, inner);
        match first_mapping(rest, inner) {
            Some(outer) => {
                let i = choose|i: int|
                    0 <= i < rest.len() && maps(#[trigger] rest[i], inner) && outer == split(
                        rest[i],
                        " -> "@,
                    )[1] && forall|j: int| 0 <= j < i ==> !maps(#[trigger] rest[j], inner);
                assert(rest[i] == lines[i + 1]);
                assert forall|j: int| 0 <= j < i + 1 implies !maps(#[trigger] lines[j], inner) by {
                    if j > 0 {
                        assert(lines[j] == rest[j - 1]);
                    }
                }
                assert(0 <= i + 1 < lines.len() && maps(lines[i + 1], inner));
            },
            None => {
                assert forall|i: int| 0 <= i < lines.len() implies !maps(
                    #[trigger] lines[i],
                    inner,
                ) by {
                    if i > 0 {
                        assert(lines[i] == rest[i - 1]);
                    }
                }
            },
        }
    }
}

/// A numeral has at least one digit, and more than one from ten on.
pub proof fn lemma_decimal_len(n: nat)
    ensures
        decimal(n).len() >= 1,
        n >= 10 ==> decimal(n).len() >= 2,
    decreases n,
{
    if n >= 10 {
        lemma_decimal_len(n / 10);
    }
}

/// Different numbers have different numerals.
pub proof fn lemma_decimal_injective(a: nat, b: nat)
    requires
        decimal(a) == decimal(b),
    ensures
        a == b,
    decreases a,
{
    lemma_decimal_len(a);
    lemma_decimal_len(b);
    if a < 10 && b < 10 {
        assert(decimal(a)[0] == digit(a as int));
        assert(decimal(b)[0] == digit(b as int));
    } else if a < 10 {
        assert(decimal(a).len() == 1);
    } else if b < 10 {
        assert(decimal(b).len() == 1);
    } else {
        let x = decimal(a / 10);
        let y = decimal(b / 10);
        assert(decimal(a).last() == digit((a % 10) as int));
        assert(decimal(b).last() == digit((b % 10) as int));
        assert(decimal(a).drop_last() =~= x);
        assert(decimal(b).drop_last() =~= y);
        lemma_decimal_injective(a / 10, b / 10);
        assert(a % 10 == b % 10);
    }
}

/// A port is written like no other port: a mapping for one port never
/// stands for another, whatever digits the two share.
pub proof fn lemma_tcp_port_injective(p: u16, q: u16)
    requires
        tcp_port(p) == tcp_port(q),
    ensures
        p == q,
{
    let a = decimal(p as nat);
    let b = decimal(q as nat);
    let tail = "/tcp"@;
    assert(a.len() == b.len()) by {
        assert((a + tail).len() == a.len() + tail.len());
        assert((b + tail).len() == b.len() + tail.len());
    }
    assert(a =~= (a + tail).subrange(0, a.len() as int));
    assert(b =~= (b + tail).subrange(0, b.len() as int));
    lemma_decimal_injective(p as nat, q as nat);
}

/// One owned argument.
fn arg(text: &str) -> (s: String)
    ensures
        s@ == text@,
{
    String::from_str(text)
}

/// The arguments that ask the client for its version.
pub fn version_command() -> (args: Vec<String>)
    ensures
        strings(args@) == seq!["version"@],
{
    let mut args: Vec<String> = Vec::new();
    args.push(arg("version"));
    args
}

/// The arguments that list the running containers, one `id:name` a line.
pub fn ps_command() -> (args: Vec<String>)
    ensures
        strings(args@) == seq!["ps"@, "--format"@, "{{.ID}}:{{.Names}}"@],
{
    let mut args: Vec<String> = Vec::new();
    args.push(arg("ps"));
    args.push(arg("--format"));
    args.push(arg("{{.ID}}:{{.Names}}"));
    args
}

/// The arguments that list the images, one `id repository:tag` a line.
pub fn images_command() -> (args: Vec<String>)
    ensures
        strings(args@) == seq!["images"@, "--format"@, "{{.ID}} {{.Repository}}:{{.Tag}}"@],
{
    let mut args: Vec<String> = Vec::new();
    args.push(arg("images"));
    args.push(arg("--format"));
    args.push(arg("{{.ID}} {{.Repository}}:{{.Tag}}"));
    args
}

/// The arguments that list the port mappings of a container.
pub fn port_command(container_id: &str) -> (args: Vec<String>)
    ensures
        strings(args@) == seq!["port"@, container_id@],
{
    let mut args: Vec<String> = Vec::new();
    args.push(arg("port"));
    args.push(arg(container_id));
    args
}

/// The arguments that fetch the log of a container.
pub fn logs_command(container_id: &str) -> (args: Vec<String>)
    ensures
        strings(args@) == seq!["logs"@, container_id@],
{
    let mut args: Vec<String> = Vec::new();
    args.push(arg("logs"));
    args.push(arg(container_id));
    args
}

/// The arguments that start a detached container from an image: the
/// options in the order given, then the image.
pub fn start_command(image_id: &str, options: &Vec<String>) -> (args: Vec<String>)
    ensures
        strings(args@) == seq!["run"@, "-d"@] + strings(options@) + seq![image_id@],
{
    let mut args: Vec<String> = Vec::new();
    args.push(arg("run"));
    args.push(arg("-d"));
    let mut i: usize = 0;
    while i < options.len()
        invariant
            i <= options.len(),
            strings(args@) == seq!["run"@, "-d"@] + strings(options@.subrange(0, i as int)),
        decreases options.len() - i,
    {
        let ghost before = strings(args@);
        args.push(options[i].clone());
        i += 1;
        assert(strings(args@) =~= before.push(options@[i - 1]@));
    }
    let ghost before = strings(args@);
    args.push(arg(image_id));
    assert(strings(args@) =~= before.push(image_id@));
    args
}

/// The arguments that end a container: removed by force where `remove` is
/// set, and only stopped where it is not.
pub fn stop_command(container_id: &str, remove: bool) -> (args: Vec<String>)
    ensures
        strings(args@) == if remove {
            seq!["rm"@, "--force"@, container_id@]
        } else {
            seq!["stop"@, container_id@]
        },
{
    let mut args: Vec<String> = Vec::new();
    if remove {
        args.push(arg("rm"));
        args.push(arg("--force"));
        args.push(arg(container_id));
    } else {
        args.push(arg("stop"));
        args.push(arg(container_id));
    }
    args
}

/// What a call of the client amounts to. Its standard output is read
/// leniently, its standard error strictly: a failed call whose error
/// stream is no UTF-8 is reported as such, without the stream.
pub fn interpret(outcome: Result<Output, String>) -> (r: Result<String, Error>)
    ensures
        text_result(r) == interpreted(outcome),
        outcome matches Ok(output) ==> (output.code == Some(0i32) && valid_utf8(output.stdout@)
            ==> (r matches Ok(text) && text@ == decode_utf8(output.stdout@))),
{
    match outcome {
        Err(cause) => Err(Error::new(ErrorKind::RuntimeInvocation { cause })),
        Ok(output) => match output.code {
            Some(0) => Ok(decode_lossy(output.stdout.as_slice())),
            code => {
                let exit_code: i32 = match code {
                    Some(c) => c,
                    None => -1,
                };
                match decode_strict(output.stderr) {
                    Some(stderr) => Err(
                        Error::new(ErrorKind::RuntimeExecution { exit_code, stderr }),
                    ),
                    None => Err(Error::new(ErrorKind::RuntimeOutputNotDecodable { exit_code })),
                }
            },
        },
    }
}

/// Whether the client can be used at all, from the outcome of asking it
/// for its version.
pub fn check(outcome: Result<Output, String>) -> (r: Result<(), Error>)
    ensures
        unit_result(r) == checked(outcome),
{
    match interpret(outcome) {
        Ok(_) => Ok(()),
        Err(e) => Err(e.chain("Invoking docker client failed!")),
    }
}

/// The id of the first line of `listing` that splits at `sep` into an id
/// and a name of which one begins with `query`.
pub fn resolve(listing: &str, sep: &str, query: &str) -> (id: Option<String>)
    ensures
        optional(id) == resolved(listing@, sep@, query@),
{
    let lines = split_str(listing, "\n");
    let ghost all = texts(lines@);
    let mut k: usize = 0;
    assert(all.subrange(0, all.len() as int) =~= all);
    while k < lines.len()
        invariant
            k <= lines.len(),
            all == texts(lines@),
            all == split(listing@, line_feed()),
            first_match(all, sep@, query@) == first_match(
                all.subrange(k as int, all.len() as int),
                sep@,
                query@,
            ),
        decreases lines.len() - k,
    {
        let ghost rest = all.subrange(k as int, all.len() as int);
        assert(rest.drop_first() =~= all.subrange(k + 1, all.len() as int));
        let fields = split_str(lines[k], sep);
        if fields.len() == 2 && (starts_with(fields[0], query) || starts_with(fields[1], query)) {
            return Some(arg(fields[0]));
        }
        k += 1;
    }
    None
}

/// The id of the running container whose id or name begins with `id_name`,
/// the first such in the order of the listing. `listing` is what the
/// client prints for `ps_command`.
pub fn find_container_id(listing: &str, id_name: &str) -> (id: Option<String>)
    ensures
        optional(id) == resolved(listing@, ":"@, id_name@),
{
    resolve(listing, ":", id_name)
}

/// The id of the image whose id or tagged name begins with `id_name`, the
/// first such in the order of the listing. `listing` is what the client
/// prints for `images_command`.
pub fn find_image_id(listing: &str, id_name: &str) -> (id: Option<String>)
    ensures
        optional(id) == resolved(listing@, " "@, id_name@),
{
    resolve(listing, " ", id_name)
}

/// The way a port listing writes the TCP port `port`.
pub fn port_text(port: u16) -> (s: String)
    ensures
        s@ == tcp_port(port),
{
    let mut s = decimal_string(port as u64);
    s.append("/tcp");
    s
}

/// The outer address that `listing` gives for the TCP port `port`: that of
/// the first line `inner -> outer` whose inner part is exactly the port
/// followed by `/tcp`. `listing` is what the client prints for
/// `port_command`.
pub fn find_public_addr(listing: &str, port: u16) -> (outer: Option<String>)
    ensures
        optional(outer) == published(listing@, port),
{
    let inner = port_text(port);
    let lines = split_str(listing, "\n");
    let ghost all = texts(lines@);
    let mut k: usize = 0;
    assert(all.subrange(0, all.len() as int) =~= all);
    while k < lines.len()
        invariant
            k <= lines.len(),
            all == texts(lines@),
            all == split(listing@, line_feed()),
            inner@ == tcp_port(port),
            first_mapping(all, inner@) == first_mapping(
                all.subrange(k as int, all.len() as int),
                inner@,
            ),
        decreases lines.len() - k,
    {
        let ghost rest = all.subrange(k as int, all.len() as int);
        assert(rest.drop_first() =~= all.subrange(k + 1, all.len() as int));
        let fields = split_str(lines[k], " -> ");
        if fields.len() == 2 && same_text(fields[0], inner.as_str()) {
            return Some(arg(fields[1]));
        }
        k += 1;
    }
    None
}

/// The short id in what the runtime prints for a new container.
pub fn short_id(text: &str) -> (r: Result<String, Error>)
    ensures
        text_result(r) == short_id_of(text@),
{
    let id = trimmed(text);
    if id.unicode_len() >= SHORT_ID_LEN {
        Ok(arg(id.substring_char(0, SHORT_ID_LEN)))
    } else {
        Err(Error::new(ErrorKind::Truncation { id: arg(id) }))
    }
}

/// The id of the running container that `id_name` refers to, from the
/// outcome of `ps_command`.
pub fn get_container_id(outcome: Result<Output, String>, id_name: &str) -> (r: Result<
    Option<String>,
    Error,
>)
    ensures
        optional_result(r) == container_id(outcome, id_name@),
{
    match interpret(outcome) {
        Ok(listing) => Ok(find_container_id(listing.as_str(), id_name)),
        Err(e) => Err(e),
    }
}

/// The id of the image that `id_name` refers to, from the outcome of
/// `images_command`.
pub fn get_image_id(outcome: Result<Output, String>, id_name: &str) -> (r: Result<
    Option<String>,
    Error,
>)
    ensures
        optional_result(r) == image_id(outcome, id_name@),
{
    match interpret(outcome) {
        Ok(listing) => Ok(find_image_id(listing.as_str(), id_name)),
        Err(e) => Err(e),
    }
}

/// The outer address published for the TCP port `port`, as the listing
/// writes it, from the outcome of `port_command`. Whether that text is a
/// socket address is for the caller to find out.
pub fn get_public_addr(outcome: Result<Output, String>, port: u16) -> (r: Result<
    Option<String>,
    Error,
>)
    ensures
        optional_result(r) == public_addr(outcome, port),
{
    match interpret(outcome) {
        Ok(listing) => Ok(find_public_addr(listing.as_str(), port)),
        Err(e) => Err(e),
    }
}

/// The short id of a new container, from the outcome of `start_command`.
pub fn start_container(outcome: Result<Output, String>) -> (r: Result<String, Error>)
    ensures
        text_result(r) == started(outcome),
{
    match interpret(outcome) {
        Ok(printed) => short_id(printed.as_str()),
        Err(e) => Err(e),
    }
}

/// Whether a container was ended, from the outcome of `stop_command`. A
/// failure of the client is handed on as it is.
pub fn stop_container(outcome: Result<Output, String>) -> (r: Result<(), Error>)
    ensures
        unit_result(r) == stopped(outcome),
{
    match interpret(outcome) {
        Ok(_) => Ok(()),
        Err(e) => Err(e),
    }
}

/// The log of a container, from the outcome of `logs_command`.
pub fn get_container_log(outcome: Result<Output, String>) -> (r: Result<String, Error>)
    ensures
        text_result(r) == interpreted(outcome),
{
    interpret(outcome)
}

} // verus!
