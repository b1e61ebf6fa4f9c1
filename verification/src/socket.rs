//! The exchange over the local socket between the parent, which serves the
//! WebAssembly module, and the child, which greets it first.

use vstd::prelude::*;
use vstd::string::StringExecFns;
use vstd::utf8::{valid_utf8, decode_utf8};
use crate::decimal::{decimal, push_digits};
use crate::messages::Side;

verus! {

/// Path of the local socket the parent listens on.
pub open spec fn spec_socket_path() -> Seq<char> {
    "/tmp/example.sock"@
}

/// The path of the local socket the parent listens on and the child
/// connects to.
pub fn socket_path() -> (path: &'static str)
    ensures
        path@ == spec_socket_path(),
{
    "/tmp/example.sock"
}

/// The line the parent prints once it listens on the socket.
pub fn listening_note() -> (line: String)
    ensures
        line@ == "[main] bind "@ + spec_socket_path() + ", socket server listening for connections."@,
{
    let line = String::from_str("[main] bind ");
    let line = line.concat(socket_path());
    line.concat(", socket server listening for connections.")
}

/// The greeting the child writes first, since the parent listens before it
/// writes.
pub fn client_hello() -> (hello: &'static str)
    ensures
        hello@ == "Hello from client!\n"@,
{
    "Hello from client!\n"
}

/// Value the child returns (its exit status) when it cannot connect to the
/// parent's socket.
pub const CHILD_EXIT_NO_SOCKET: isize = 1;

/// Value the child returns (its exit status) when it has run to the end.
pub const CHILD_EXIT_DONE: isize = 0;

/// The child's exit status once its connection attempt is over: it gives up
/// with [`CHILD_EXIT_NO_SOCKET`] when it could not connect, and otherwise
/// goes on (`None`) towards [`CHILD_EXIT_DONE`].
pub fn exit_after_connect(connected: bool) -> (status: Option<isize>)
    ensures
        connected <==> status is None,
        !connected ==> status == Some(CHILD_EXIT_NO_SOCKET),
{
    if connected {
        None
    } else {
        Some(CHILD_EXIT_NO_SOCKET)
    }
}

/// The text of `bytes` where they are valid UTF-8.
pub open spec fn utf8_text(bytes: Seq<u8>) -> Option<Seq<char>> {
    if valid_utf8(bytes) {
        Some(decode_utf8(bytes))
    } else {
        None
    }
}

/// `String::from_utf8(bytes)`: the string holding those bytes when they are
/// valid UTF-8, else an error.  Stated over vstd's model of UTF-8.
#[verifier::external_body]
fn string_from_utf8(bytes: Vec<u8>) -> (text: Option<String>)
    ensures
        match text {
            Some(t) => utf8_text(bytes@) == Some(t@),
            None => utf8_text(bytes@) is None,
        },
{
    match String::from_utf8(bytes) {
        Ok(t) => Some(t),
        Err(_) => None,
    }
}

/// What a command wrote on its standard output, when it is text; output that
/// is not valid UTF-8 is not shown.
pub fn output_text(stdout: Vec<u8>) -> (text: Option<String>)
    ensures
        match text {
            Some(t) => utf8_text(stdout@) == Some(t@),
            None => utf8_text(stdout@) is None,
        },
{
    string_from_utf8(stdout)
}

/// The prefix of the line that reports what a side received on the socket.
pub open spec fn received_prefix(side: Side) -> Seq<char> {
    match side {
        Side::Parent => "[main]: received from socket: "@,
        Side::Child => "[child]: received from socket: "@,
    }
}

/// The line reporting the bytes a side received on the socket, with their
/// length in bytes; nothing is reported when they are not valid UTF-8.
pub fn received_report(side: Side, received: Vec<u8>) -> (line: Option<String>)
    ensures
        match utf8_text(received@) {
            Some(t) => line matches Some(l) && l@ == received_prefix(side) + t + ", length is "@
                + decimal(received@.len() as int) + " bytes"@,
            None => line is None,
        },
{
    let length = received.len();
    match string_from_utf8(received) {
        Some(text) => {
            let mut line = match side {
                Side::Parent => String::from_str("[main]: received from socket: "),
                Side::Child => String::from_str("[child]: received from socket: "),
            };
            line.append(text.as_str());
            line.append(", length is ");
            push_digits(&mut line, length as u64);
            line.append(" bytes");
            proof {
                assert(line@ =~= received_prefix(side) + text@ + ", length is "@ + decimal(
                    received@.len() as int,
                ) + " bytes"@);
            }
            Some(line)
        },
        None => None,
    }
}

} // verus!
