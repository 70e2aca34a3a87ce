use vstd::prelude::*;

use crate::naming::{extension_of, has_extension, stem_of, PGP_EXTENSION, VAULT_EXTENSION};

verus! {

/// Longest wait for a notification before the shutdown flag is read again, in milliseconds.
pub const POLL_INTERVAL_MS: u64 = 1000;

/// The kind of a filesystem change notification.
#[derive(Clone, Copy, Debug, PartialEq, Eq)]
pub enum EventKind {
    Created,
    DataModified,
    Renamed,
    Other,
}

/// What one wait for a notification brought.
#[derive(Clone, Copy, Debug, PartialEq, Eq)]
pub enum Received {
    /// A notification of the given kind.
    Event(EventKind),
    /// The notification source reported an error for one event.
    EventError,
    /// Nothing arrived within the poll interval.
    Timeout,
    /// The notification source itself is gone.
    Disconnected,
}

/// What the watch loop does next.
#[derive(Clone, Copy, Debug, PartialEq, Eq)]
pub enum WatchStep {
    /// Wait up to `timeout_ms` milliseconds for the next notification.
    Wait { timeout_ms: u64 },
    /// Hand each eligible path of the notification to the pipeline, then poll.
    Dispatch,
    /// Read the shutdown flag again.
    Poll,
    /// Return normally.
    Stop,
    /// Return with a channel error.
    Fail,
}

/// Whether a notification of this kind can bring a file into the pipeline.
pub open spec fn relevant_kind(kind: EventKind) -> bool {
    kind == EventKind::Created || kind == EventKind::DataModified || kind == EventKind::Renamed
}

/// Whether a file name is one of the system's own artifacts.
pub open spec fn is_artifact_name(name: Seq<char>) -> bool {
    extension_of(name) == Some(VAULT_EXTENSION@) || extension_of(name) == Some(PGP_EXTENSION@)
}

/// Whether a path whose file name is `file_name` enters the pipeline: it must have a usable
/// file name, and not be one of the system's own artifacts.
pub open spec fn spec_should_process(file_name: Option<Seq<char>>) -> bool {
    match file_name {
        Some(n) => !is_artifact_name(n),
        None => false,
    }
}

/// The view of an optional file name.
pub open spec fn name_view(file_name: Option<&str>) -> Option<Seq<char>> {
    match file_name {
        Some(n) => Some(n@),
        None => None,
    }
}

/// Whether a path whose file name is `file_name` (`None` where it has no usable one) may
/// enter the pipeline: the system's own artifacts never do.
pub fn should_process(file_name: Option<&str>) -> (r: bool)
    ensures
        r == spec_should_process(name_view(file_name)),
{
    match file_name {
        Some(n) => !(has_extension(n, VAULT_EXTENSION) || has_extension(n, PGP_EXTENSION)),
        None => false,
    }
}

/// Whether a notification of kind `kind` for a path with file name `file_name` sends the path
/// into the pipeline: a regular file created, written or renamed, and not an artifact.
pub fn is_eligible(file_name: Option<&str>, kind: EventKind, is_directory: bool) -> (r: bool)
    ensures
        r == (relevant_kind(kind) && !is_directory && spec_should_process(name_view(file_name))),
{
    let relevant = match kind {
        EventKind::Created | EventKind::DataModified | EventKind::Renamed => true,
        EventKind::Other => false,
    };
    relevant && !is_directory && should_process(file_name)
}

/// The step before each wait.
pub open spec fn spec_on_poll(shutdown_requested: bool) -> WatchStep {
    if shutdown_requested {
        WatchStep::Stop
    } else {
        WatchStep::Wait { timeout_ms: POLL_INTERVAL_MS }
    }
}

/// The step after a wait.
pub open spec fn spec_on_received(received: Received) -> WatchStep {
    match received {
        Received::Event(k) => if relevant_kind(k) { WatchStep::Dispatch } else { WatchStep::Poll },
        Received::EventError => WatchStep::Poll,
        Received::Timeout => WatchStep::Poll,
        Received::Disconnected => WatchStep::Fail,
    }
}

/// The step before each wait: stop once shutdown is requested, else wait one poll interval.
pub fn on_poll(shutdown_requested: bool) -> (r: WatchStep)
    ensures
        r == spec_on_poll(shutdown_requested),
{
    if shutdown_requested {
        WatchStep::Stop
    } else {
        WatchStep::Wait { timeout_ms: POLL_INTERVAL_MS }
    }
}

/// The step after a wait: dispatch a relevant notification, fail when the source is gone,
/// and otherwise poll again.
pub fn on_received(received: Received) -> (r: WatchStep)
    ensures
        r == spec_on_received(received),
{
    match received {
        Received::Event(k) => match k {
            EventKind::Created | EventKind::DataModified | EventKind::Renamed => WatchStep::Dispatch,
            EventKind::Other => WatchStep::Poll,
        },
        Received::EventError => WatchStep::Poll,
        Received::Timeout => WatchStep::Poll,
        Received::Disconnected => WatchStep::Fail,
    }
}

proof fn lemma_last_dot_of_suffix(prefix: Seq<char>, ext: Seq<char>)
    requires
        prefix.len() > 0,
        ext.len() > 0,
        forall|i: int| 0 <= i < ext.len() ==> ext[i] != '.',
    ensures
        extension_of(prefix + seq!['.'] + ext) == Some(ext),
{
    let s = prefix + seq!['.'] + ext;
    let d = prefix.len() as int;
    assert(s[d] == '.');
    lemma_no_dot_after(s, d, s.len() as int);
    assert(s.len() > 2);
    assert(s != seq!['.', '.']);
    assert(s.subrange(d + 1, s.len() as int) =~= ext);
}

proof fn lemma_no_dot_after(s: Seq<char>, d: int, n: int)
    requires
        0 <= d < n <= s.len(),
        s[d] == '.',
        forall|i: int| d < i < s.len() ==> s[i] != '.',
    ensures
        crate::naming::last_dot_before(s, n) == Some(d),
    decreases n,
{
    if n - 1 > d {
        lemma_no_dot_after(s, d, n - 1);
    }
}

/// The system's own artifacts never re-enter the pipeline: the artifact that either envelope
/// makes from a file with a non-empty name is never eligible.
pub proof fn lemma_artifacts_never_eligible(file_name: Seq<char>)
    requires
        file_name.len() > 0,
    ensures
        !spec_should_process(Some(stem_of(file_name) + "."@ + VAULT_EXTENSION@)),
        !spec_should_process(Some(file_name + "."@ + PGP_EXTENSION@)),
{
    reveal_strlit(".");
    reveal_strlit("vault");
    reveal_strlit("pgp");
    assert("."@ =~= seq!['.']);
    lemma_stem_nonempty(file_name);
    lemma_last_dot_of_suffix(stem_of(file_name), VAULT_EXTENSION@);
    lemma_last_dot_of_suffix(file_name, PGP_EXTENSION@);
}

proof fn lemma_stem_nonempty(name: Seq<char>)
    requires
        name.len() > 0,
    ensures
        stem_of(name).len() > 0,
{
    match crate::naming::extension_dot(name) {
        Some(i) => {
            lemma_extension_dot_positive(name);
        },
        None => {},
    }
}

proof fn lemma_extension_dot_positive(name: Seq<char>)
    ensures
        crate::naming::extension_dot(name) matches Some(i) ==> 0 < i < name.len(),
{
    crate::naming::lemma_last_dot_bounds(name, name.len() as int);
}

/// Shutdown is honoured within one poll interval when nothing happens: a wait that brings
/// nothing leads back to a poll, a poll with the flag set stops the loop, and every wait that
/// a poll starts lasts at most one poll interval.
pub proof fn lemma_shutdown_stops_within_one_interval(shutdown_requested: bool)
    ensures
        spec_on_received(Received::Timeout) == WatchStep::Poll,
        spec_on_poll(true) == WatchStep::Stop,
        spec_on_poll(shutdown_requested) is Wait ==> spec_on_poll(shutdown_requested) == (WatchStep::Wait { timeout_ms: POLL_INTERVAL_MS }),
{
}

} // verus!
