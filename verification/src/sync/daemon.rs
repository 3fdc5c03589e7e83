//! The rclone remote-control daemon: how it is started, addressed, and how
//! its replies are judged.
use vstd::prelude::*;
use crate::errors::RcloneError;
use crate::json::JsonDoc;
use crate::text::{decimal, u64_to_decimal};

verus! {

/// The daemon's settings: the rclone program, the address its remote control
/// listens on, and how many seconds it is given to start.
pub struct RcloneDaemon {
    pub rclone_path: String,
    pub rc_addr: String,
    pub delta: u64,
}

impl RcloneDaemon {
    /// A daemon run from `rclone_path`, listening on 127.0.0.1:5572 and given
    /// five seconds to start.
    pub fn new(rclone_path: String) -> (d: RcloneDaemon)
        ensures
            d.rclone_path@ == rclone_path@,
            d.rc_addr@ == "127.0.0.1:5572"@,
            d.delta == 5,
    {
        RcloneDaemon { rclone_path, rc_addr: String::from_str("127.0.0.1:5572"), delta: 5 }
    }

    /// The arguments that start the daemon: `rcd --rc-addr <addr> --rc-no-auth`.
    pub fn spawn_args(&self) -> (args: Vec<String>)
        ensures
            args@.len() == 4,
            args@[0]@ == "rcd"@,
            args@[1]@ == "--rc-addr"@,
            args@[2]@ == self.rc_addr@,
            args@[3]@ == "--rc-no-auth"@,
    {
        let mut args: Vec<String> = Vec::new();
        args.push(String::from_str("rcd"));
        args.push(String::from_str("--rc-addr"));
        args.push(self.rc_addr.clone());
        args.push(String::from_str("--rc-no-auth"));
        args
    }

    /// The URL of the remote-control method `method`: `http://<addr>/<method>`.
    pub fn rc_url(&self, method: &str) -> (url: String)
        ensures
            url@ == "http://"@ + self.rc_addr@ + "/"@ + method@,
    {
        let mut url = String::from_str("http://");
        url.append(self.rc_addr.as_str());
        url.append("/");
        url.append(method);
        url
    }

    /// The URL of the no-op method, which tells whether the daemon answers.
    pub fn noop_url(&self) -> (url: String)
        ensures
            url@ == "http://"@ + self.rc_addr@ + "/"@ + "rc/noop"@,
    {
        self.rc_url("rc/noop")
    }
}

/// Whether an HTTP status code counts as success (the 2xx range).
pub open spec fn http_success(code: u16) -> bool {
    200 <= code && code <= 299
}

/// Whether a probe of the daemon got an answer with a success status
/// (`Ok(code)`), rather than a failure status or no answer at all (`Err`).
pub fn probe_answered(reply: Result<u16, String>) -> (up: bool)
    ensures
        up == (reply matches Ok(code) && http_success(code)),
{
    match reply {
        Ok(code) => 200 <= code && code <= 299,
        Err(_) => false,
    }
}

/// Judges the reply to a remote-control call: its HTTP status, its body, and
/// the body parsed as JSON (`Err` with the parser's message where it is not
/// JSON). A failure status gives `http <code>: <body>`; a body that does not
/// parse gives the parser's message followed by ` response=<body>`.
pub fn rc_call_result(status: u16, text: String, parsed: Result<JsonDoc, String>) -> (r: Result<JsonDoc, RcloneError>)
    ensures
        !http_success(status) ==> (r matches Err(RcloneError::RcCallFailed(m))
            && m@ == "http "@ + decimal(status as nat) + ": "@ + text@),
        http_success(status) ==> match parsed {
            Ok(doc) => r == Ok::<JsonDoc, RcloneError>(doc),
            Err(msg) => r matches Err(RcloneError::RcCallFailed(m))
                && m@ == msg@ + " response="@ + text@,
        },
{
    if !(200 <= status && status <= 299) {
        let mut m = String::from_str("http ");
        let code = u64_to_decimal(status as u64);
        m.append(code.as_str());
        m.append(": ");
        m.append(text.as_str());
        return Err(RcloneError::RcCallFailed(m));
    }
    match parsed {
        Ok(doc) => Ok(doc),
        Err(msg) => {
            let mut m = msg;
            m.append(" response=");
            m.append(text.as_str());
            Err(RcloneError::RcCallFailed(m))
        },
    }
}

/// Where the start of the daemon stands.
#[derive(Clone, Copy, PartialEq, Eq, Structural, Debug)]
pub enum StartPhase {
    /// The daemon process is being spawned.
    Spawning,
    /// The clock is read against the deadline.
    CheckingDeadline,
    /// The daemon is probed with a no-op call.
    Probing,
    /// A pause between two probes.
    Waiting,
    /// The deadline passed; the process is being stopped.
    Stopping,
    /// The start has ended.
    Finished,
}

/// What the caller reports back after carrying out an action.
pub enum StartEvent {
    /// The process was spawned (`Err` with the system's message where not).
    Spawned(Result<(), String>),
    /// The clock was read: whether it is past the deadline.
    DeadlineChecked(bool),
    /// The probe was answered with a success status, or not.
    Probed(bool),
    /// The pause is over.
    Waited,
    /// The process was stopped, or stopping it failed.
    Stopped(Result<(), RcloneError>),
}

/// What the caller is to do next.
pub enum StartAction {
    /// Spawn the daemon process.
    Spawn,
    /// Read the clock against the deadline.
    CheckDeadline,
    /// Send a no-op call to the daemon.
    Probe,
    /// Pause for this many milliseconds.
    Wait(u64),
    /// Stop the daemon process.
    Stop,
    /// The start is over, with this outcome.
    Done(Result<(), RcloneError>),
}

/// The start of the daemon, one step at a time: spawn the process, then
/// probe it until it answers or the deadline passes, pausing 50 ms between
/// probes; past the deadline, stop the process and report a timeout.
pub struct DaemonStart {
    phase: StartPhase,
}

/// The phase an action leads to.
pub open spec fn phase_after(a: StartAction) -> StartPhase {
    match a {
        StartAction::Spawn => StartPhase::Spawning,
        StartAction::CheckDeadline => StartPhase::CheckingDeadline,
        StartAction::Probe => StartPhase::Probing,
        StartAction::Wait(_) => StartPhase::Waiting,
        StartAction::Stop => StartPhase::Stopping,
        StartAction::Done(_) => StartPhase::Finished,
    }
}

/// Whether `e` answers the action of phase `p`.
pub open spec fn answers(p: StartPhase, e: StartEvent) -> bool {
    match p {
        StartPhase::Spawning => e is Spawned,
        StartPhase::CheckingDeadline => e is DeadlineChecked,
        StartPhase::Probing => e is Probed,
        StartPhase::Waiting => e is Waited,
        StartPhase::Stopping => e is Stopped,
        StartPhase::Finished => false,
    }
}

/// Each action leads to a phase that takes in the report of that very action,
/// so the start can always go on; only the final outcome ends it, after which
/// no report is taken.
pub proof fn lemma_actions_accept_their_reports()
    ensures
        forall|e: StartEvent| e is Spawned ==> #[trigger] answers(phase_after(StartAction::Spawn), e),
        forall|e: StartEvent| e is DeadlineChecked ==> #[trigger] answers(phase_after(StartAction::CheckDeadline), e),
        forall|e: StartEvent| e is Probed ==> #[trigger] answers(phase_after(StartAction::Probe), e),
        forall|n: u64| answers(#[trigger] phase_after(StartAction::Wait(n)), StartEvent::Waited),
        forall|e: StartEvent| e is Stopped ==> #[trigger] answers(phase_after(StartAction::Stop), e),
        forall|o: Result<(), RcloneError>, e: StartEvent| !#[trigger] answers(phase_after(StartAction::Done(o)), e),
{
}

impl DaemonStart {
    /// The phase the start is in.
    pub closed spec fn phase_spec(&self) -> StartPhase {
        self.phase
    }

    /// Begins a start: the first action is to spawn the process.
    pub fn new() -> (r: (DaemonStart, StartAction))
        ensures
            r.1 is Spawn,
            r.0.phase_spec() == phase_after(r.1),
    {
        (DaemonStart { phase: StartPhase::Spawning }, StartAction::Spawn)
    }

    /// The phase the start is in.
    pub fn phase(&self) -> (p: StartPhase)
        ensures
            p == self.phase_spec(),
    {
        self.phase
    }

    /// Whether `event` answers the action this start waits on.
    pub fn expects(&self, event: &StartEvent) -> (b: bool)
        ensures
            b == answers(self.phase_spec(), *event),
    {
        match self.phase {
            StartPhase::Spawning => matches!(event, StartEvent::Spawned(_)),
            StartPhase::CheckingDeadline => matches!(event, StartEvent::DeadlineChecked(_)),
            StartPhase::Probing => matches!(event, StartEvent::Probed(_)),
            StartPhase::Waiting => matches!(event, StartEvent::Waited),
            StartPhase::Stopping => matches!(event, StartEvent::Stopped(_)),
            StartPhase::Finished => false,
        }
    }

    /// Takes in the outcome of the last action and returns the next one.
    pub fn step(&mut self, event: StartEvent) -> (a: StartAction)
        requires
            answers(old(self).phase_spec(), event),
        ensures
            final(self).phase_spec() == phase_after(a),
            match event {
                StartEvent::Spawned(Err(msg)) => a matches StartAction::Done(Err(RcloneError::DaemonFailedToStart(m)))
                    && m@ == msg@,
                StartEvent::Spawned(Ok(())) => a is CheckDeadline,
                StartEvent::DeadlineChecked(past) => if past { a is Stop } else { a is Probe },
                StartEvent::Probed(up) => if up { a matches StartAction::Done(Ok(())) } else { a matches StartAction::Wait(50) },
                StartEvent::Waited => a is CheckDeadline,
                StartEvent::Stopped(Err(e)) => a == StartAction::Done(Err(e)),
                StartEvent::Stopped(Ok(())) => a matches StartAction::Done(Err(RcloneError::Timeout)),
            },
    {
        let a = match event {
            StartEvent::Spawned(Err(msg)) => StartAction::Done(Err(RcloneError::DaemonFailedToStart(msg))),
            StartEvent::Spawned(Ok(())) => StartAction::CheckDeadline,
            StartEvent::DeadlineChecked(past) => if past {
                StartAction::Stop
            } else {
                StartAction::Probe
            },
            StartEvent::Probed(up) => if up {
                StartAction::Done(Ok(()))
            } else {
                StartAction::Wait(50)
            },
            StartEvent::Waited => StartAction::CheckDeadline,
            StartEvent::Stopped(Err(e)) => StartAction::Done(Err(e)),
            StartEvent::Stopped(Ok(())) => StartAction::Done(Err(RcloneError::Timeout)),
        };
        self.phase = match a {
            StartAction::Spawn => StartPhase::Spawning,
            StartAction::CheckDeadline => StartPhase::CheckingDeadline,
            StartAction::Probe => StartPhase::Probing,
            StartAction::Wait(_) => StartPhase::Waiting,
            StartAction::Stop => StartPhase::Stopping,
            StartAction::Done(_) => StartPhase::Finished,
        };
        a
    }
}

} // verus!
