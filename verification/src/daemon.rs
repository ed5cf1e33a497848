//! The daemon-side helpers: the file descriptors a service manager
//! passes at activation, socket classification arguments, and the
//! readiness state strings a daemon reports back.
//!
//! The queries themselves (socket probes, the notification datagram) are
//! transport work; this module holds the value logic around them.

use vstd::prelude::*;
use vstd::slice::slice_index_get;


verus! {

/// Stream socket type code.
pub const SOCK_STREAM: i32 = 1;

/// Datagram socket type code.
pub const SOCK_DGRAM: i32 = 2;

/// Raw socket type code.
pub const SOCK_RAW: i32 = 3;

/// Number of the first passed file descriptor.
pub const LISTEN_FDS_START: i32 = 3;

/// Tells the manager daemon startup is finished.
pub const STATE_READY: &'static str = "READY";

/// Tells the manager the daemon is reloading its configuration.
pub const STATE_RELOADING: &'static str = "RELOADING";

/// Tells the manager the daemon is stopping.
pub const STATE_STOPPING: &'static str = "STOPPING";

/// Single-line status string describing daemon state.
pub const STATE_STATUS: &'static str = "STATUS";

/// Errno-style error code in case of failure.
pub const STATE_ERRNO: &'static str = "ERRNO";

/// Bus-style error code in case of failure.
pub const STATE_BUSERROR: &'static str = "BUSERROR";

/// Main PID of the daemon, in case the manager did not fork it itself.
pub const STATE_MAINPID: &'static str = "MAINPID";

/// Update the watchdog timestamp (set to 1).
pub const STATE_WATCHDOG: &'static str = "WATCHDOG";

/// Reset the watchdog timeout during runtime.
pub const STATE_WATCHDOG_USEC: &'static str = "WATCHDOG_USEC";

/// Extend the timeout for the current state.
pub const STATE_EXTEND_TIMEOUT_USEC: &'static str = "EXTEND_TIMEOUT_USEC";

/// Store file descriptors in the service manager.
pub const STATE_FDSTORE: &'static str = "FDSTORE";

/// Remove file descriptors from the service manager store.
pub const STATE_FDSTOREREMOVE: &'static str = "FDSTOREREMOVE";

/// Name the group of file descriptors sent to the service manager.
pub const STATE_FDNAME: &'static str = "FDNAME";

/// The socket types a descriptor can be checked against.
#[derive(Debug, Copy, Clone, PartialEq, Eq, Structural)]
pub enum SocketType {
    Stream,
    Datagram,
    Raw,
}

/// Options for checking whether a socket is in listening mode.
#[derive(Debug, Copy, Clone, PartialEq, Eq, Structural)]
pub enum Listening {
    /// Verify that the socket is in listening mode.
    IsListening,
    /// Verify that the socket is not in listening mode.
    IsNotListening,
    /// Don't check whether the socket is listening.
    NoListeningCheck,
}

/// The socket type code an optional check argument stands for, 0 for no
/// type check.
pub fn get_c_socktype(socktype: Option<SocketType>) -> (r: i32)
    ensures
        socktype == Some(SocketType::Stream) ==> r == SOCK_STREAM,
        socktype == Some(SocketType::Datagram) ==> r == SOCK_DGRAM,
        socktype == Some(SocketType::Raw) ==> r == SOCK_RAW,
        socktype is None ==> r == 0,
{
    match socktype {
        Some(SocketType::Stream) => SOCK_STREAM,
        Some(SocketType::Datagram) => SOCK_DGRAM,
        Some(SocketType::Raw) => SOCK_RAW,
        None => 0,
    }
}

/// The flag value a listening-mode check argument stands for.
pub fn get_c_listening(listening: Listening) -> (r: i32)
    ensures
        listening == Listening::IsListening ==> r == 1,
        listening == Listening::IsNotListening ==> r == 0,
        listening == Listening::NoListeningCheck ==> r == -1,
{
    match listening {
        Listening::IsListening => 1,
        Listening::IsNotListening => 0,
        Listening::NoListeningCheck => -1,
    }
}

/// The file descriptors the service manager passed at activation: `n`
/// descriptors, numbered consecutively from `LISTEN_FDS_START`.
#[derive(Debug)]
pub struct ListenFds {
    num_fds: i32,
}

impl View for ListenFds {
    type V = int;

    closed spec fn view(&self) -> int {
        self.num_fds as int
    }
}

/// Build the descriptor set for the count the service manager reported.
/// Reading and clearing the activation environment is the embedder's
/// part; the count must be a plausible descriptor count.
pub fn listen_fds(num_fds: i32) -> (r: ListenFds)
    requires
        0 <= num_fds <= i32::MAX - LISTEN_FDS_START,
    ensures
        r@ == num_fds,
{
    ListenFds { num_fds }
}

impl ListenFds {
    /// The descriptor count never leaves the plausible range.
    #[verifier::type_invariant]
    pub closed spec fn wf(self) -> bool {
        0 <= self.num_fds <= i32::MAX - LISTEN_FDS_START
    }

    /// The total number of file descriptors represented by the range.
    pub fn len(&self) -> (r: i32)
        ensures
            r == self@,
    {
        self.num_fds
    }

    /// Whether no file descriptors were passed.
    pub fn is_empty(&self) -> (r: bool)
        ensures
            r == (self@ == 0),
    {
        self.num_fds == 0
    }

    /// An iterable range over the passed file descriptors.
    pub fn iter(&self) -> (r: ListenFdsRange)
        ensures
            r@ == (0int, self@),
    {
        proof {
            use_type_invariant(self);
        }
        ListenFdsRange { current: 0, num_fds: self.num_fds }
    }
}

/// An iterable range over passed file descriptors: the descriptors from
/// `LISTEN_FDS_START + current` up to `LISTEN_FDS_START + num_fds - 1`.
#[derive(Debug)]
pub struct ListenFdsRange {
    current: i32,
    num_fds: i32,
}

impl View for ListenFdsRange {
    type V = (int, int);

    closed spec fn view(&self) -> (int, int) {
        (self.current as int, self.num_fds as int)
    }
}

impl ListenFdsRange {
    /// The walked range stays within the plausible descriptor numbers.
    #[verifier::type_invariant]
    pub closed spec fn wf(self) -> bool {
        0 <= self.current && self.num_fds <= i32::MAX - LISTEN_FDS_START
    }

    /// The next passed file descriptor, if one is left.
    pub fn next(&mut self) -> (r: Option<i32>)
        ensures
            old(self)@.0 < old(self)@.1 ==> (r == Some((LISTEN_FDS_START + old(self)@.0) as i32)
                && final(self)@ == (old(self)@.0 + 1, old(self)@.1)),
            old(self)@.0 >= old(self)@.1 ==> (r is None && final(self)@ == old(self)@),
    {
        proof {
            use_type_invariant(&*self);
        }
        if self.current < self.num_fds {
            let fd = LISTEN_FDS_START + self.current;
            self.current = self.current + 1;
            Some(fd)
        } else {
            None
        }
    }
}

impl Clone for ListenFdsRange {
    /// Cloning keeps the walked range.
    fn clone(&self) -> (r: Self)
        ensures
            r@ == self@,
    {
        proof {
            use_type_invariant(self);
        }
        ListenFdsRange { current: self.current, num_fds: self.num_fds }
    }
}

/// The line a readiness state pair contributes: `KEY=value`.
pub open spec fn state_line(kv: (Seq<char>, Seq<char>)) -> Seq<char> {
    kv.0 + seq!['='] + kv.1
}

/// The readiness state string from position `i` on: the remaining lines
/// joined with newlines.
pub open spec fn state_text(s: Seq<(Seq<char>, Seq<char>)>, i: int) -> Seq<char>
    decreases s.len() - i,
    when i <= s.len()
{
    if i >= s.len() {
        Seq::empty()
    } else if i == s.len() - 1 {
        state_line(s[i])
    } else {
        state_line(s[i]) + seq!['\n'] + state_text(s, i + 1)
    }
}

/// The views of a list of key/value string pairs.
pub open spec fn pairs_view(s: Seq<(String, String)>) -> Seq<(Seq<char>, Seq<char>)> {
    Seq::new(s.len(), |i: int| (s[i].0@, s[i].1@))
}

/// Append the state lines from position `i` on, joined with newlines.
fn append_state(state: &Vec<(String, String)>, i: usize, out: &mut String)
    requires
        i <= state@.len(),
    ensures
        final(out)@ == old(out)@ + state_text(pairs_view(state@), i as int),
    decreases state@.len() - i,
{
    proof {
        reveal_strlit("=");
        reveal_strlit("\n");
    }
    if i < state.len() {
        let kv = slice_index_get(state.as_slice(), i);
        out.append(kv.0.as_str());
        out.append("=");
        out.append(kv.1.as_str());
        if i + 1 < state.len() {
            out.append("\n");
            append_state(state, i + 1, out);
            proof {
                assert(out@ =~= old(out)@ + state_text(pairs_view(state@), i as int));
            }
        } else {
            append_state(state, i + 1, out);
            proof {
                assert(out@ =~= old(out)@ + state_text(pairs_view(state@), i as int));
            }
        }
    } else {
        proof {
            assert(out@ =~= old(out)@ + state_text(pairs_view(state@), i as int));
        }
    }
}

/// Render a readiness state as the text the manager expects: one
/// `KEY=value` line per pair, joined with newlines. Sending the text is
/// the embedder's part.
pub fn state_to_string(state: &Vec<(String, String)>) -> (r: String)
    ensures
        r@ == state_text(pairs_view(state@), 0),
{
    let mut out = String::new();
    append_state(state, 0, &mut out);
    proof {
        assert(out@ =~= state_text(pairs_view(state@), 0));
    }
    out
}

} // verus!
