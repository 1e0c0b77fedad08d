//! The rendezvous coordinator's decision logic, as a state machine over
//! plain events and actions. The surrounding runtime performs each action —
//! sending a request through the protocol session, binding the loopback
//! listener, accepting the helper's connection and reading its line, keeping
//! the wall-clock deadline — and feeds the outcome back as the next event.
//! Every decision of the acquisition sequence is made here.

use vstd::prelude::*;
use vstd::pervasive::unreached;
use crate::identity::{is_trimmed, lemma_trimmed_is_trimmed, trim_line, trimmed};
use crate::request::{agent_request, clear_request, clone_strings, decimal_digits, TerminalRequest};

verus! {

/// The whole acquisition, from the optional clear command through reading
/// the identity line, must finish within this many seconds.
pub const ACQUISITION_DEADLINE_SECS: u64 = 300;

/// Why an acquisition failed.
#[derive(Clone, Copy, PartialEq, Eq, Structural, Debug)]
pub enum AcquisitionError {
    /// The optional clear command failed at the protocol layer.
    ClearCommandFailed,
    /// The loopback listener could not be created.
    LocalBindFailed,
    /// The deadline elapsed before a complete identity line was read.
    Timeout,
    /// A transport error while accepting or reading.
    IoFailure,
}

/// One acquisition's fixed inputs.
pub struct Config {
    /// Which flavor of terminal the host should open.
    pub terminal_kind: String,
    /// Display label for the opened terminal.
    pub title: String,
    /// A command to run in the terminal first, to clear it; `None` skips
    /// that step.
    pub clear_sequence: Option<Vec<String>>,
    /// Path of the running executable, which the helper command line
    /// re-invokes in agent mode.
    pub executable: String,
    /// How the host platform addresses terminals.
    pub platform: crate::handle::Platform,
}

/// Where the coordinator stands between events.
#[derive(Clone, Copy, PartialEq, Eq, Structural, Debug)]
pub enum CoordState {
    /// The clear command was sent; its outcome is awaited.
    ClearPending,
    /// The loopback listener is being bound.
    BindPending,
    /// The listener is bound and the run request dispatched; the helper's
    /// connection and line are awaited.
    Rendezvous,
    /// The helper's connection closed without a line; only the deadline
    /// remains.
    Draining,
    /// The acquisition ended, in success or failure.
    Finished,
}

/// What the runtime reports back to the coordinator.
pub enum Event {
    /// The clear request completed successfully.
    ClearDone,
    /// The clear request failed at the protocol layer.
    ClearFailed,
    /// The listener is bound; the payload is its local port.
    Bound(u16),
    /// The listener could not be bound.
    BindFailed,
    /// The helper connected and one read completed; the payload is the raw
    /// line, empty when the connection closed without data.
    HelperLine(String),
    /// Accepting the connection or reading from it failed.
    IoFailed,
    /// The acquisition deadline elapsed.
    DeadlineExpired,
}

/// What the runtime must do next.
pub enum Action {
    /// Send this clear request through the session and await its outcome.
    SendClear(TerminalRequest),
    /// Bind a loopback listener on an ephemeral port.
    BindListener,
    /// Dispatch this run request without awaiting its response, then await
    /// the helper's connection and its line.
    DispatchRun(TerminalRequest),
    /// Nothing is left to await but the deadline.
    AwaitDeadline,
    /// The acquisition succeeded with this trimmed device identity; hand the
    /// accepted connection and the identity to the terminal handle.
    Succeed(String),
    /// The acquisition failed.
    Fail(AcquisitionError),
}

/// Which events can reach the coordinator in each state: exactly the
/// outcomes of the action that brought it there, plus the deadline while one
/// is pending.
pub open spec fn event_fits(state: CoordState, event: Event) -> bool {
    match state {
        CoordState::ClearPending => event is ClearDone || event is ClearFailed
            || event is DeadlineExpired,
        CoordState::BindPending => event is Bound || event is BindFailed
            || event is DeadlineExpired,
        CoordState::Rendezvous => event is HelperLine || event is IoFailed
            || event is DeadlineExpired,
        CoordState::Draining => event is DeadlineExpired,
        CoordState::Finished => false,
    }
}

/// The request `r` carries the fields every request of one acquisition
/// shares: the caller's terminal kind and title, the host's default working
/// directory, no extra environment.
pub open spec fn request_matches_config(r: TerminalRequest, cfg: Config) -> bool {
    &&& r.cwd@ == Seq::<char>::empty()
    &&& r.env is None
    &&& r.kind@ == cfg.terminal_kind@
    &&& r.title@ == cfg.title@
}

/// Begin an acquisition: clear the terminal first when a clear command was
/// given, otherwise bind the listener right away.
pub fn start(cfg: &Config) -> (r: (CoordState, Action))
    ensures
        cfg.clear_sequence is Some ==> {
            &&& r.0 is ClearPending
            &&& r.1 is SendClear
            &&& r.1->SendClear_0.args@ == cfg.clear_sequence->Some_0@
            &&& request_matches_config(r.1->SendClear_0, *cfg)
        },
        cfg.clear_sequence is None ==> r.0 is BindPending && r.1 is BindListener,
{
    match &cfg.clear_sequence {
        Some(cs) => {
            let req = clear_request(cfg.terminal_kind.as_str(), cfg.title.as_str(), clone_strings(
                cs,
            ));
            (CoordState::ClearPending, Action::SendClear(req))
        },
        None => (CoordState::BindPending, Action::BindListener),
    }
}

/// One decision of the coordinator: given where it stands and what the
/// runtime reports, where it stands next and what the runtime must do.
pub fn step(cfg: &Config, state: CoordState, event: Event) -> (r: (CoordState, Action))
    requires
        event_fits(state, event),
    ensures
        // The deadline is the one source of Timeout, whatever was pending.
        r.1 is Fail && r.1->Fail_0 == AcquisitionError::Timeout <==> event is DeadlineExpired,
        state is ClearPending && event is ClearDone ==> r.0 is BindPending
            && r.1 is BindListener,
        state is ClearPending && event is ClearFailed ==> r.1 is Fail && r.1->Fail_0
            == AcquisitionError::ClearCommandFailed,
        state is BindPending && event is BindFailed ==> r.1 is Fail && r.1->Fail_0
            == AcquisitionError::LocalBindFailed,
        state is BindPending && event is Bound ==> {
            &&& r.0 is Rendezvous
            &&& r.1 is DispatchRun
            &&& r.1->DispatchRun_0.args@.len() == 3
            &&& r.1->DispatchRun_0.args@[0]@ == cfg.executable@
            &&& r.1->DispatchRun_0.args@[1]@ == "terminal-agent"@
            &&& r.1->DispatchRun_0.args@[2]@ == "--connect="@ + decimal_digits(
                event->Bound_0 as nat,
            )
            &&& request_matches_config(r.1->DispatchRun_0, *cfg)
        },
        state is Rendezvous && event is IoFailed ==> r.1 is Fail && r.1->Fail_0
            == AcquisitionError::IoFailure,
        state is Rendezvous && event is HelperLine && event->HelperLine_0@.len() > 0 ==> {
            &&& r.1 is Succeed
            &&& r.1->Succeed_0@ == trimmed(event->HelperLine_0@)
            &&& is_trimmed(r.1->Succeed_0@)
        },
        // A helper that closed its connection without writing yields no
        // handle: only the deadline remains.
        state is Rendezvous && event is HelperLine && event->HelperLine_0@.len() == 0 ==> r.0
            is Draining && r.1 is AwaitDeadline,
        // A handle comes only from a helper line with content.
        r.1 is Succeed ==> state is Rendezvous && event is HelperLine
            && event->HelperLine_0@.len() > 0,
        // The clear request is sent once, before the machine starts stepping.
        !(r.1 is SendClear),
        // Binding is asked for only by a successful clear; an acquisition
        // whose clear failed never binds a listener.
        r.1 is BindListener <==> state is ClearPending && event is ClearDone,
        // The run request is dispatched only by a successful bind.
        r.1 is DispatchRun <==> state is BindPending && event is Bound,
        // The machine stops exactly when it answers.
        r.0 is Finished <==> (r.1 is Succeed || r.1 is Fail),
{
    match (state, event) {
        (_, Event::DeadlineExpired) => (
            CoordState::Finished,
            Action::Fail(AcquisitionError::Timeout),
        ),
        (CoordState::ClearPending, Event::ClearDone) => (
            CoordState::BindPending,
            Action::BindListener,
        ),
        (CoordState::ClearPending, Event::ClearFailed) => (
            CoordState::Finished,
            Action::Fail(AcquisitionError::ClearCommandFailed),
        ),
        (CoordState::BindPending, Event::Bound(port)) => {
            let req = agent_request(
                cfg.terminal_kind.as_str(),
                cfg.title.as_str(),
                cfg.executable.as_str(),
                port,
            );
            (CoordState::Rendezvous, Action::DispatchRun(req))
        },
        (CoordState::BindPending, Event::BindFailed) => (
            CoordState::Finished,
            Action::Fail(AcquisitionError::LocalBindFailed),
        ),
        (CoordState::Rendezvous, Event::HelperLine(line)) => {
            if line.as_str().is_empty() {
                (CoordState::Draining, Action::AwaitDeadline)
            } else {
                proof {
                    lemma_trimmed_is_trimmed(line@);
                }
                let identity = trim_line(line.as_str());
                (CoordState::Finished, Action::Succeed(identity))
            }
        },
        (CoordState::Rendezvous, Event::IoFailed) => (
            CoordState::Finished,
            Action::Fail(AcquisitionError::IoFailure),
        ),
        _ => unreached(),
    }
}

/// Law: once the helper's connection closed without a line, the only event
/// the coordinator can still receive is deadline expiry — which `step`
/// answers with `Timeout` — so an empty line never becomes a handle.
pub proof fn lemma_draining_only_expires()
    ensures
        forall|ev: Event| event_fits(CoordState::Draining, ev) ==> ev is DeadlineExpired,
{
}

/// Law: a finished acquisition takes no further events; in particular, an
/// acquisition that failed at the clear step never goes on to bind a
/// listener.
pub proof fn lemma_finished_is_terminal()
    ensures
        forall|ev: Event| !event_fits(CoordState::Finished, ev),
{
}

} // verus!
