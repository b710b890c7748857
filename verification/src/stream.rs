//! The three standard streams: their names and their file descriptors.

use vstd::prelude::*;
use vstd::string::*;

verus! {

/// One of the three standard streams of the process.
#[derive(Debug, Clone, Copy, PartialEq, Eq, Structural)]
pub enum StreamKind {
    Stdin,
    Stdout,
    Stderr,
}

/// The name `stdin`.
pub open spec fn stdin_name() -> Seq<char> {
    seq!['s', 't', 'd', 'i', 'n']
}

/// The name `stdout`.
pub open spec fn stdout_name() -> Seq<char> {
    seq!['s', 't', 'd', 'o', 'u', 't']
}

/// The name `stderr`.
pub open spec fn stderr_name() -> Seq<char> {
    seq!['s', 't', 'd', 'e', 'r', 'r']
}

/// The stream a name denotes: exactly `stdin`, `stdout` and `stderr` are
/// accepted, compared character by character (no case folding, no trimming).
pub open spec fn spec_parse_stream_kind(name: Seq<char>) -> Option<StreamKind> {
    if name == stdin_name() {
        Some(StreamKind::Stdin)
    } else if name == stdout_name() {
        Some(StreamKind::Stdout)
    } else if name == stderr_name() {
        Some(StreamKind::Stderr)
    } else {
        None
    }
}

/// Whether two strings hold the same characters.
fn same_chars(a: &str, b: &str) -> (r: bool)
    ensures
        r == (a@ == b@),
{
    let n = a.unicode_len();
    if n != b.unicode_len() {
        return false;
    }
    let mut i: usize = 0;
    while i < n
        invariant
            n == a@.len(),
            n == b@.len(),
            i <= n,
            forall|j: int| 0 <= j < i ==> a@[j] == b@[j],
        decreases n - i,
    {
        if a.get_char(i) != b.get_char(i) {
            return false;
        }
        i += 1;
    }
    assert(a@ =~= b@);
    true
}

/// Maps a stream name to the stream it denotes; any other name gives `None`.
pub fn parse_stream_kind(name: &str) -> (kind: Option<StreamKind>)
    ensures
        kind == spec_parse_stream_kind(name@),
        (kind == Some(StreamKind::Stdin)) <==> (name@ == seq!['s', 't', 'd', 'i', 'n']),
        (kind == Some(StreamKind::Stdout)) <==> (name@ == seq!['s', 't', 'd', 'o', 'u', 't']),
        (kind == Some(StreamKind::Stderr)) <==> (name@ == seq!['s', 't', 'd', 'e', 'r', 'r']),
{
    proof {
        reveal_strlit("stdin");
        reveal_strlit("stdout");
        reveal_strlit("stderr");
        assert("stdin"@ =~= stdin_name());
        assert("stdout"@ =~= stdout_name());
        assert("stderr"@ =~= stderr_name());
    }
    if same_chars(name, "stdin") {
        Some(StreamKind::Stdin)
    } else if same_chars(name, "stdout") {
        Some(StreamKind::Stdout)
    } else if same_chars(name, "stderr") {
        Some(StreamKind::Stderr)
    } else {
        None
    }
}

/// The file descriptor of each standard stream.
pub open spec fn spec_stream_fd(stream: StreamKind) -> int {
    match stream {
        StreamKind::Stdin => 0,
        StreamKind::Stdout => 1,
        StreamKind::Stderr => 2,
    }
}

/// Reads `libc::STDIN_FILENO`, which libc's source defines as 0.
#[verifier::external_body]
fn stdin_fileno() -> (fd: i32)
    ensures
        fd == 0,
{
    libc::STDIN_FILENO
}

/// Reads `libc::STDOUT_FILENO`, which libc's source defines as 1.
#[verifier::external_body]
fn stdout_fileno() -> (fd: i32)
    ensures
        fd == 1,
{
    libc::STDOUT_FILENO
}

/// Reads `libc::STDERR_FILENO`, which libc's source defines as 2.
#[verifier::external_body]
fn stderr_fileno() -> (fd: i32)
    ensures
        fd == 2,
{
    libc::STDERR_FILENO
}

/// The file descriptor through which the process reaches `stream`.
pub fn stream_fd(stream: StreamKind) -> (fd: i32)
    ensures
        fd == spec_stream_fd(stream),
        (stream == StreamKind::Stdin) ==> (fd == 0),
        (stream == StreamKind::Stdout) ==> (fd == 1),
        (stream == StreamKind::Stderr) ==> (fd == 2),
{
    match stream {
        StreamKind::Stdin => stdin_fileno(),
        StreamKind::Stdout => stdout_fileno(),
        StreamKind::Stderr => stderr_fileno(),
    }
}

} // verus!
