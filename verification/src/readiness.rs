//! Readiness detection for a supervised process: its stdout is consumed
//! line by line until a line containing the readiness marker appears.
//! If the stream ends first the wait fails with a stream-closed error;
//! if neither resolves within the deadline it fails with a timeout.
//! The driver collects the observed lines; this module decides the
//! outcome, exactly.
use vstd::prelude::*;
use crate::strutil::contains_seq;
use crate::strutil::contains_str;
use crate::errors::Error;

verus! {

/// Lifecycle of a supervised process. `Failed` is absorbing and
/// reachable from every non-terminal state.
#[derive(Debug, Clone, Copy, PartialEq, Eq, Structural)]
pub enum ProcessState {
    Starting,
    Ready,
    Running,
    Stopping,
    Stopped,
    Failed,
}

impl ProcessState {
    pub open spec fn is_terminal(self) -> bool {
        self == ProcessState::Stopped || self == ProcessState::Failed
    }

    /// The transitions of the lifecycle: forward along
    /// Starting -> Ready -> Running -> Stopping -> Stopped, or into
    /// `Failed` from any non-terminal state. A stop may also come
    /// while the service is still only `Ready`.
    pub open spec fn can_step_to(self, next: ProcessState) -> bool {
        ||| (self == ProcessState::Starting && next == ProcessState::Ready)
        ||| (self == ProcessState::Ready && next == ProcessState::Running)
        ||| (self == ProcessState::Ready && next == ProcessState::Stopping)
        ||| (self == ProcessState::Running && next == ProcessState::Stopping)
        ||| (self == ProcessState::Stopping && next == ProcessState::Stopped)
        ||| (!self.is_terminal() && next == ProcessState::Failed)
    }
}

/// `Stopped` and `Failed` are terminal: no transition leaves them, so
/// `Failed` in particular absorbs every lifecycle that enters it.
pub proof fn lemma_terminal_states_have_no_successor(s: ProcessState, next: ProcessState)
    requires
        s.is_terminal(),
    ensures
        !s.can_step_to(next),
{
}

/// No observed line contains the marker.
pub open spec fn no_line_has_marker(lines: Seq<Seq<char>>, marker: Seq<char>) -> bool {
    forall|i: int| 0 <= i < lines.len() ==> !contains_seq(#[trigger] lines[i], marker)
}

/// Index of the first observed line containing the marker, if any.
pub fn scan_for_marker(lines: &Vec<String>, marker: &str) -> (r: Option<usize>)
    ensures
        r is None <==> no_line_has_marker(lines@.map_values(|l: String| l@), marker@),
        r matches Some(i) ==> i < lines@.len() && contains_seq(lines@[i as int]@, marker@) && (
        forall|k: int| 0 <= k < i ==> !contains_seq(#[trigger] lines@[k]@, marker@)),
{
    let n = lines.len();
    let mut i: usize = 0;
    while i < n
        invariant
            n == lines@.len(),
            i <= n,
            forall|k: int| 0 <= k < i ==> !contains_seq(#[trigger] lines@[k]@, marker@),
        decreases n - i,
    {
        if contains_str(lines[i].as_str(), marker) {
            proof {
                let ghost lv = lines@.map_values(|l: String| l@);
                assert(lv[i as int] == lines@[i as int]@);
                assert(!no_line_has_marker(lv, marker@));
            }
            return Some(i);
        }
        i = i + 1;
    }
    proof {
        let ghost lv = lines@.map_values(|l: String| l@);
        assert(forall|k: int| 0 <= k < lv.len() ==> lv[k] == lines@[k]@);
    }
    None
}

/// The outcome of waiting for readiness, given everything the driver
/// observed: the stdout lines read so far, whether the stream ended
/// (the process exited or closed its stdout), and whether the overall
/// deadline passed. The wait only ends for one of those three reasons,
/// which is what the precondition records.
///
/// A marker line wins over both failure conditions (it was seen before
/// the wait ended); otherwise a closed stream is reported as
/// `ReadinessStreamClosed` with the captured stderr attached, and a
/// bare deadline as `ReadinessTimeout`.
pub fn wait_ready_outcome(
    lines: &Vec<String>,
    stream_closed: bool,
    timed_out: bool,
    marker: &str,
    stderr: &str,
) -> (r: Result<usize, Error>)
    requires
        !no_line_has_marker(lines@.map_values(|l: String| l@), marker@) || stream_closed
            || timed_out,
    ensures
        r matches Ok(i) ==> i < lines@.len() && contains_seq(lines@[i as int]@, marker@) && (
        forall|k: int| 0 <= k < i ==> !contains_seq(#[trigger] lines@[k]@, marker@)),
        (r is Ok) <==> !no_line_has_marker(lines@.map_values(|l: String| l@), marker@),
        no_line_has_marker(lines@.map_values(|l: String| l@), marker@) && stream_closed ==> (
        r matches Err(e) && e matches Error::ReadinessStreamClosed { stderr: s } && s@ == stderr@),
        no_line_has_marker(lines@.map_values(|l: String| l@), marker@) && !stream_closed ==> r
            == Err::<usize, Error>(Error::ReadinessTimeout),
{
    proof {
        let ghost lv = lines@.map_values(|l: String| l@);
        assert(forall|k: int| 0 <= k < lv.len() ==> lv[k] == lines@[k]@);
    }
    match scan_for_marker(lines, marker) {
        Some(i) => Ok(i),
        None => {
            if stream_closed {
                Err(Error::ReadinessStreamClosed { stderr: stderr.to_owned() })
            } else {
                Err(Error::ReadinessTimeout)
            }
        },
    }
}

} // verus!
