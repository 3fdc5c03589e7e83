//! The error types of the backend and the messages they display.
use vstd::prelude::*;
use vstd::std_specs::convert::{FromSpec, FromSpecImpl};

verus! {

/// Failures of rclone itself or of its remote-control daemon.
#[derive(Debug, Clone)]
pub enum RcloneError {
    NotInstalled,
    InstalledCheckFail(String),
    DaemonFailedToStart(String),
    DaemonFailedToStop(String),
    DaemonNotRunning,
    RcCallFailed(String),
    UnexpectedResponse(String),
    Timeout,
}

/// Failures of the persistent store.
#[derive(Debug, Clone)]
pub enum StoreError {
    ReadFailed(String),
    WriteFailed(String),
    Other(String),
}

/// Any error that the backend reports to the frontend.
#[derive(Debug, Clone)]
pub enum BackendError {
    Rclone(RcloneError),
    Store(StoreError),
    Other(String),
}

/// The message that an rclone error displays.
pub open spec fn rclone_message(e: RcloneError) -> Seq<char> {
    match e {
        RcloneError::NotInstalled => "rclone not found on PATH"@,
        RcloneError::InstalledCheckFail(m) => "rclone version check failed: "@ + m@,
        RcloneError::DaemonFailedToStart(m) => "daemon failed to start: "@ + m@,
        RcloneError::DaemonFailedToStop(m) => "daemon failed to stop: "@ + m@,
        RcloneError::DaemonNotRunning => "daemon is not running"@,
        RcloneError::RcCallFailed(m) => "rc call failed: "@ + m@,
        RcloneError::UnexpectedResponse(m) => "unexpected response: "@ + m@,
        RcloneError::Timeout => "timed out"@,
    }
}

/// The message that a store error displays.
pub open spec fn store_message(e: StoreError) -> Seq<char> {
    match e {
        StoreError::ReadFailed(m) => "read failed: "@ + m@,
        StoreError::WriteFailed(m) => "write failed: "@ + m@,
        StoreError::Other(m) => "unexpected error: "@ + m@,
    }
}

/// The message that a backend error displays: a wrapped rclone or store error
/// displays exactly its own message.
pub open spec fn backend_message(e: BackendError) -> Seq<char> {
    match e {
        BackendError::Rclone(inner) => rclone_message(inner),
        BackendError::Store(inner) => store_message(inner),
        BackendError::Other(m) => "unexpected error: "@ + m@,
    }
}

fn prefixed(prefix: &str, rest: &String) -> (s: String)
    ensures
        s@ == prefix@ + rest@,
{
    let mut s = String::from_str(prefix);
    s.append(rest.as_str());
    s
}

/// The text `{:?}` gives for a string: the string quoted, with escapes.
pub uninterp spec fn quoted(s: Seq<char>) -> Seq<char>;

/// Formats `s` with `{:?}` (std's `Debug` for `str`). The contract names the
/// result; which characters are escaped, and how, is left unsaid.
#[verifier::external_body]
fn debug_str(s: &str) -> (r: String)
    ensures
        r@ == quoted(s@),
{
    format!("{:?}", s)
}

/// The text `{:?}` gives for a variant `name` holding the string `m`.
pub open spec fn tuple_text(name: Seq<char>, m: Seq<char>) -> Seq<char> {
    name + "("@ + quoted(m) + ")"@
}

/// The text `{:?}` gives for an rclone error: the variant's name, followed by
/// its message quoted in brackets where it has one.
pub open spec fn rclone_debug(e: RcloneError) -> Seq<char> {
    match e {
        RcloneError::NotInstalled => "NotInstalled"@,
        RcloneError::InstalledCheckFail(m) => tuple_text("InstalledCheckFail"@, m@),
        RcloneError::DaemonFailedToStart(m) => tuple_text("DaemonFailedToStart"@, m@),
        RcloneError::DaemonFailedToStop(m) => tuple_text("DaemonFailedToStop"@, m@),
        RcloneError::DaemonNotRunning => "DaemonNotRunning"@,
        RcloneError::RcCallFailed(m) => tuple_text("RcCallFailed"@, m@),
        RcloneError::UnexpectedResponse(m) => tuple_text("UnexpectedResponse"@, m@),
        RcloneError::Timeout => "Timeout"@,
    }
}

fn tuple_debug(name: &str, m: &String) -> (s: String)
    ensures
        s@ == tuple_text(name@, m@),
{
    let mut s = String::from_str(name);
    s.append("(");
    let q = debug_str(m.as_str());
    s.append(q.as_str());
    s.append(")");
    s
}

impl RcloneError {
    /// The text `{:?}` gives for this error.
    pub fn debug_text(&self) -> (s: String)
        ensures
            s@ == rclone_debug(*self),
    {
        match self {
            RcloneError::NotInstalled => String::from_str("NotInstalled"),
            RcloneError::InstalledCheckFail(m) => tuple_debug("InstalledCheckFail", m),
            RcloneError::DaemonFailedToStart(m) => tuple_debug("DaemonFailedToStart", m),
            RcloneError::DaemonFailedToStop(m) => tuple_debug("DaemonFailedToStop", m),
            RcloneError::DaemonNotRunning => String::from_str("DaemonNotRunning"),
            RcloneError::RcCallFailed(m) => tuple_debug("RcCallFailed", m),
            RcloneError::UnexpectedResponse(m) => tuple_debug("UnexpectedResponse", m),
            RcloneError::Timeout => String::from_str("Timeout"),
        }
    }

    /// The message this error displays.
    pub fn to_string(&self) -> (s: String)
        ensures
            s@ == rclone_message(*self),
    {
        match self {
            RcloneError::NotInstalled => String::from_str("rclone not found on PATH"),
            RcloneError::InstalledCheckFail(m) => prefixed("rclone version check failed: ", m),
            RcloneError::DaemonFailedToStart(m) => prefixed("daemon failed to start: ", m),
            RcloneError::DaemonFailedToStop(m) => prefixed("daemon failed to stop: ", m),
            RcloneError::DaemonNotRunning => String::from_str("daemon is not running"),
            RcloneError::RcCallFailed(m) => prefixed("rc call failed: ", m),
            RcloneError::UnexpectedResponse(m) => prefixed("unexpected response: ", m),
            RcloneError::Timeout => String::from_str("timed out"),
        }
    }
}

impl StoreError {
    /// The message this error displays.
    pub fn to_string(&self) -> (s: String)
        ensures
            s@ == store_message(*self),
    {
        match self {
            StoreError::ReadFailed(m) => prefixed("read failed: ", m),
            StoreError::WriteFailed(m) => prefixed("write failed: ", m),
            StoreError::Other(m) => prefixed("unexpected error: ", m),
        }
    }
}

impl BackendError {
    /// The message this error displays.
    pub fn to_string(&self) -> (s: String)
        ensures
            s@ == backend_message(*self),
    {
        match self {
            BackendError::Rclone(inner) => inner.to_string(),
            BackendError::Store(inner) => inner.to_string(),
            BackendError::Other(m) => prefixed("unexpected error: ", m),
        }
    }
}

impl From<RcloneError> for BackendError {
    fn from(e: RcloneError) -> (r: BackendError) {
        BackendError::Rclone(e)
    }
}

impl FromSpecImpl<RcloneError> for BackendError {
    open spec fn obeys_from_spec() -> bool {
        true
    }

    open spec fn from_spec(e: RcloneError) -> BackendError {
        BackendError::Rclone(e)
    }
}

impl From<StoreError> for BackendError {
    fn from(e: StoreError) -> (r: BackendError) {
        BackendError::Store(e)
    }
}

impl FromSpecImpl<StoreError> for BackendError {
    open spec fn obeys_from_spec() -> bool {
        true
    }

    open spec fn from_spec(e: StoreError) -> BackendError {
        BackendError::Store(e)
    }
}

/// Wrapping an rclone error into a backend error keeps its message: the
/// backend error displays exactly what the rclone error displays.
pub proof fn lemma_rclone_wrap_keeps_message(e: RcloneError)
    ensures
        backend_message(<BackendError as FromSpec<RcloneError>>::from_spec(e))
            == rclone_message(e),
{
}

/// Wrapping a store error into a backend error keeps its message.
pub proof fn lemma_store_wrap_keeps_message(e: StoreError)
    ensures
        backend_message(<BackendError as FromSpec<StoreError>>::from_spec(e))
            == store_message(e),
{
}

} // verus!
