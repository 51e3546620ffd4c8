//! The connector state machine.
//!
//! Connection establishment goes through two phases, each retried forever
//! with a fixed delay: resolving the target name to an address, then
//! opening a TCP connection to it with a bounded per-attempt timeout.  The
//! surrounding process performs one attempt, hands its result to
//! `connector_step` as an event, and carries out the actions the step
//! returns: show a transient status line, sleep before the next attempt,
//! or configure the fresh connection for low latency.  Failures never end
//! the machine; it leaves `Connected` to nothing and reaches it on the
//! first successful connect.

use vstd::prelude::*;

verus! {

/// Fixed delay between attempts within either phase, in milliseconds.
pub const RETRY_DELAY_MS: u64 = 1000;

/// Per-attempt timeout for one TCP connect, in milliseconds.
pub const CONNECT_TIMEOUT_MS: u64 = 1000;

/// Where connection establishment stands.
#[derive(Clone, Copy, Debug, PartialEq, Eq, Structural)]
pub enum ConnectorState {
    /// Waiting for the target name to resolve to an address.
    Resolving,
    /// An address is known; waiting for a TCP connect to succeed.
    Connecting,
    /// A live connection exists; the connector's work is over.
    Connected,
}

/// The result of one attempt, as the surrounding process reports it.  A
/// failure carries the failure's description, shown to the user on the
/// status line.
#[derive(Debug)]
pub enum ConnectorEvent {
    ResolveFailed(Vec<u8>),
    Resolved,
    ConnectFailed(Vec<u8>),
    ConnectSucceeded,
}

/// What one step asks the surrounding process to do before the next
/// attempt.
#[derive(Debug)]
pub struct ConnectorActions {
    /// Text to show on the self-erasing status line; empty text clears the
    /// line.  `None` means the line is left as it is.
    pub status: Option<Vec<u8>>,
    /// How long to sleep before the next attempt; zero means no sleep.
    pub sleep_ms: u64,
    /// Whether to configure the fresh connection for low-latency delivery
    /// (no coalescing of small writes); best-effort.
    pub configure_low_latency: bool,
}

/// The status tag of the resolution phase: `DNS, `.
pub open spec fn resolving_tag() -> Seq<u8> {
    seq![68u8, 78u8, 83u8, 44u8, 32u8]
}

/// The status tag of the connection phase: `TCP, `.
pub open spec fn connecting_tag() -> Seq<u8> {
    seq![84u8, 67u8, 80u8, 44u8, 32u8]
}

/// The text that marks an attempt in progress: `...`.
pub open spec fn pending_text() -> Seq<u8> {
    seq![46u8, 46u8, 46u8]
}

/// The state one event moves the machine to.  Failures keep the current
/// phase, successes advance it, and an event that does not belong to the
/// current phase changes nothing.
pub open spec fn next_state(s: ConnectorState, e: ConnectorEvent) -> ConnectorState {
    match (s, e) {
        (ConnectorState::Resolving, ConnectorEvent::Resolved) => ConnectorState::Connecting,
        (ConnectorState::Connecting, ConnectorEvent::ConnectSucceeded) => ConnectorState::Connected,
        _ => s,
    }
}

/// The status text one event has shown: the phase's tag with the failure's
/// description on a failure, the connection tag with `...` when resolution
/// ends, and empty text (clearing the line) when the connection is up.
pub open spec fn step_status(s: ConnectorState, e: ConnectorEvent) -> Option<Seq<u8>> {
    match (s, e) {
        (ConnectorState::Resolving, ConnectorEvent::ResolveFailed(d)) => Some(
            resolving_tag() + d@,
        ),
        (ConnectorState::Resolving, ConnectorEvent::Resolved) => Some(
            connecting_tag() + pending_text(),
        ),
        (ConnectorState::Connecting, ConnectorEvent::ConnectFailed(d)) => Some(
            connecting_tag() + d@,
        ),
        (ConnectorState::Connecting, ConnectorEvent::ConnectSucceeded) => Some(
            Seq::<u8>::empty(),
        ),
        _ => None,
    }
}

/// The sleep one event calls for: the fixed retry delay after a failure of
/// the current phase, none otherwise.
pub open spec fn step_sleep(s: ConnectorState, e: ConnectorEvent) -> u64 {
    match (s, e) {
        (ConnectorState::Resolving, ConnectorEvent::ResolveFailed(_)) => RETRY_DELAY_MS,
        (ConnectorState::Connecting, ConnectorEvent::ConnectFailed(_)) => RETRY_DELAY_MS,
        _ => 0,
    }
}

/// Whether one event calls for configuring the fresh connection: only the
/// successful connect does.
pub open spec fn step_configures(s: ConnectorState, e: ConnectorEvent) -> bool {
    match (s, e) {
        (ConnectorState::Connecting, ConnectorEvent::ConnectSucceeded) => true,
        _ => false,
    }
}

/// The status text of an actions value, as a sequence.
pub open spec fn status_view(o: Option<Vec<u8>>) -> Option<Seq<u8>> {
    match o {
        Some(v) => Some(v@),
        None => None,
    }
}

/// Appends the whole of `src` onto the end of `dst`.
fn append_bytes(dst: &mut Vec<u8>, src: &Vec<u8>)
    ensures
        final(dst)@ == old(dst)@ + src@,
{
    let n = src.len();
    let mut i: usize = 0;
    while i < n
        invariant
            i <= n,
            n == src@.len(),
            dst@ == old(dst)@ + src@.subrange(0, i as int),
        decreases n - i,
    {
        dst.push(src[i]);
        proof {
            assert(dst@ =~= old(dst)@ + src@.subrange(0, i + 1));
        }
        i = i + 1;
    }
    proof {
        assert(dst@ =~= old(dst)@ + src@);
    }
}

/// Builds the resolution phase's status tag.
fn resolving_tag_bytes() -> (v: Vec<u8>)
    ensures
        v@ == resolving_tag(),
{
    let mut v: Vec<u8> = Vec::new();
    v.push(68u8);
    v.push(78u8);
    v.push(83u8);
    v.push(44u8);
    v.push(32u8);
    proof {
        assert(v@ =~= resolving_tag());
    }
    v
}

/// Builds the connection phase's status tag.
fn connecting_tag_bytes() -> (v: Vec<u8>)
    ensures
        v@ == connecting_tag(),
{
    let mut v: Vec<u8> = Vec::new();
    v.push(84u8);
    v.push(67u8);
    v.push(80u8);
    v.push(44u8);
    v.push(32u8);
    proof {
        assert(v@ =~= connecting_tag());
    }
    v
}

/// Builds the in-progress marker.
fn pending_text_bytes() -> (v: Vec<u8>)
    ensures
        v@ == pending_text(),
{
    let mut v: Vec<u8> = Vec::new();
    v.push(46u8);
    v.push(46u8);
    v.push(46u8);
    proof {
        assert(v@ =~= pending_text());
    }
    v
}

/// Starts the connector: the machine stands at `Resolving` and the status
/// line announces the resolution attempt in progress.
pub fn connector_start() -> (r: (ConnectorState, ConnectorActions))
    ensures
        r.0 == ConnectorState::Resolving,
        status_view(r.1.status) == Some(resolving_tag() + pending_text()),
        r.1.sleep_ms == 0,
        !r.1.configure_low_latency,
{
    let mut text = resolving_tag_bytes();
    let dots = pending_text_bytes();
    append_bytes(&mut text, &dots);
    (
        ConnectorState::Resolving,
        ConnectorActions { status: Some(text), sleep_ms: 0, configure_low_latency: false },
    )
}

/// Advances the machine by one reported attempt and returns the actions
/// the event calls for: a failure of the current phase shows its
/// description and sleeps the fixed delay before the retry; a successful
/// resolution moves on to connecting and announces it; a successful
/// connect finishes the machine, configures the connection for low
/// latency, and clears the status line.
pub fn connector_step(state: ConnectorState, event: &ConnectorEvent) -> (r: (
    ConnectorState,
    ConnectorActions,
))
    ensures
        r.0 == next_state(state, *event),
        status_view(r.1.status) == step_status(state, *event),
        r.1.sleep_ms == step_sleep(state, *event),
        r.1.configure_low_latency == step_configures(state, *event),
{
    match (state, event) {
        (ConnectorState::Resolving, ConnectorEvent::ResolveFailed(d)) => {
            let mut text = resolving_tag_bytes();
            append_bytes(&mut text, d);
            (
                ConnectorState::Resolving,
                ConnectorActions {
                    status: Some(text),
                    sleep_ms: RETRY_DELAY_MS,
                    configure_low_latency: false,
                },
            )
        },
        (ConnectorState::Resolving, ConnectorEvent::Resolved) => {
            let mut text = connecting_tag_bytes();
            let dots = pending_text_bytes();
            append_bytes(&mut text, &dots);
            (
                ConnectorState::Connecting,
                ConnectorActions { status: Some(text), sleep_ms: 0, configure_low_latency: false },
            )
        },
        (ConnectorState::Connecting, ConnectorEvent::ConnectFailed(d)) => {
            let mut text = connecting_tag_bytes();
            append_bytes(&mut text, d);
            (
                ConnectorState::Connecting,
                ConnectorActions {
                    status: Some(text),
                    sleep_ms: RETRY_DELAY_MS,
                    configure_low_latency: false,
                },
            )
        },
        (ConnectorState::Connecting, ConnectorEvent::ConnectSucceeded) => {
            let cleared: Vec<u8> = Vec::new();
            (
                ConnectorState::Connected,
                ConnectorActions {
                    status: Some(cleared),
                    sleep_ms: 0,
                    configure_low_latency: true,
                },
            )
        },
        _ => {
            (state, ConnectorActions { status: None, sleep_ms: 0, configure_low_latency: false })
        },
    }
}

/// The state the machine stands in after each event in `events` in turn.
pub open spec fn run_connector(s: ConnectorState, events: Seq<ConnectorEvent>) -> ConnectorState
    decreases events.len(),
{
    if events.len() == 0 {
        s
    } else {
        run_connector(next_state(s, events[0]), events.skip(1))
    }
}

/// Running a concatenation of event sequences is running one after the
/// other.
pub proof fn lemma_run_concat(s: ConnectorState, a: Seq<ConnectorEvent>, b: Seq<ConnectorEvent>)
    ensures
        run_connector(s, a + b) == run_connector(run_connector(s, a), b),
    decreases a.len(),
{
    if a.len() == 0 {
        assert(a + b =~= b);
    } else {
        assert((a + b).skip(1) =~= a.skip(1) + b);
        lemma_run_concat(next_state(s, a[0]), a.skip(1), b);
    }
}

/// Resolution failures, however many, leave the machine resolving: the
/// wait is unbounded and never gives up.
pub proof fn lemma_resolution_failures_wait(fs: Seq<ConnectorEvent>)
    requires
        forall|i: int| 0 <= i < fs.len() ==> fs[i] is ResolveFailed,
    ensures
        run_connector(ConnectorState::Resolving, fs) == ConnectorState::Resolving,
    decreases fs.len(),
{
    if fs.len() > 0 {
        assert(forall|i: int| 0 <= i < fs.skip(1).len() ==> fs.skip(1)[i] is ResolveFailed);
        lemma_resolution_failures_wait(fs.skip(1));
    }
}

/// Connect failures, however many, leave the machine connecting: the wait
/// is unbounded and never gives up.
pub proof fn lemma_connect_failures_wait(fs: Seq<ConnectorEvent>)
    requires
        forall|i: int| 0 <= i < fs.len() ==> fs[i] is ConnectFailed,
    ensures
        run_connector(ConnectorState::Connecting, fs) == ConnectorState::Connecting,
    decreases fs.len(),
{
    if fs.len() > 0 {
        assert(forall|i: int| 0 <= i < fs.skip(1).len() ==> fs.skip(1)[i] is ConnectFailed);
        lemma_connect_failures_wait(fs.skip(1));
    }
}

/// Liveness of establishment: however many resolution attempts fail before
/// one resolves, and however many connect attempts fail before one
/// succeeds, the machine ends `Connected`.
pub proof fn lemma_eventual_connection(rf: Seq<ConnectorEvent>, cf: Seq<ConnectorEvent>)
    requires
        forall|i: int| 0 <= i < rf.len() ==> rf[i] is ResolveFailed,
        forall|i: int| 0 <= i < cf.len() ==> cf[i] is ConnectFailed,
    ensures
        run_connector(
            ConnectorState::Resolving,
            rf + seq![ConnectorEvent::Resolved] + cf + seq![ConnectorEvent::ConnectSucceeded],
        ) == ConnectorState::Connected,
{
    let resolved = seq![ConnectorEvent::Resolved];
    let succeeded = seq![ConnectorEvent::ConnectSucceeded];
    let all = rf + resolved + cf + succeeded;
    assert(all =~= rf + (resolved + (cf + succeeded)));
    lemma_run_concat(ConnectorState::Resolving, rf, resolved + (cf + succeeded));
    lemma_resolution_failures_wait(rf);
    lemma_run_concat(ConnectorState::Resolving, resolved, cf + succeeded);
    assert(run_connector(ConnectorState::Resolving, resolved) == ConnectorState::Connecting) by {
        assert(resolved[0] == ConnectorEvent::Resolved);
        assert(run_connector(ConnectorState::Resolving, resolved) == run_connector(
            next_state(ConnectorState::Resolving, resolved[0]),
            resolved.skip(1),
        ));
        assert(resolved.skip(1).len() == 0);
        assert(run_connector(ConnectorState::Connecting, resolved.skip(1))
            == ConnectorState::Connecting);
    };
    lemma_run_concat(ConnectorState::Connecting, cf, succeeded);
    lemma_connect_failures_wait(cf);
    assert(run_connector(ConnectorState::Connecting, succeeded) == ConnectorState::Connected) by {
        assert(succeeded[0] == ConnectorEvent::ConnectSucceeded);
        assert(run_connector(ConnectorState::Connecting, succeeded) == run_connector(
            next_state(ConnectorState::Connecting, succeeded[0]),
            succeeded.skip(1),
        ));
        assert(succeeded.skip(1).len() == 0);
        assert(run_connector(ConnectorState::Connected, succeeded.skip(1))
            == ConnectorState::Connected);
    };
}

/// Once the connection is up the status line has been fully cleared: the
/// successful connect writes an empty update, and an empty update leaves
/// nothing visible, whatever the line showed before.
pub proof fn lemma_connection_clears_status(line: Seq<u8>)
    ensures
        step_status(ConnectorState::Connecting, ConnectorEvent::ConnectSucceeded) == Some(
            Seq::<u8>::empty(),
        ),
        crate::status::line_after_write(line, crate::status::erase_line_seq() + Seq::<u8>::empty())
            == Seq::<u8>::empty(),
{
    crate::status::lemma_status_overwrites(line, Seq::<u8>::empty());
}

} // verus!
