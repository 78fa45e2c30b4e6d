//! Response Classifier: decides, from one service reply and the hook
//! version, whether the bridge emits output, recovers by establishing a
//! watch, or fails; and drives the two-step recovery that follows.
//!
//! The service signals "this root is not registered" only through the text
//! of its error message, so the two known phrases are matched here and
//! nowhere else.

use vstd::prelude::*;

use crate::HookVersion;
use crate::errors::BridgeError;
use crate::output::ChangedSet;

verus! {

/// `needle` occurs somewhere in `hay`.
pub open spec fn contains_seq(hay: Seq<char>, needle: Seq<char>) -> bool {
    exists|i: int|
        0 <= i && i + needle.len() <= hay.len() && #[trigger] hay.subrange(i, i + needle.len())
            == needle
}

/// Naive substring search, exact against `contains_seq`.
fn contains_str(hay: &str, needle: &str) -> (r: bool)
    ensures
        r == contains_seq(hay@, needle@),
{
    let n = hay.unicode_len();
    let m = needle.unicode_len();
    if m > n {
        return false;
    }
    if m == 0 {
        proof {
            assert(hay@.subrange(0, 0 + needle@.len() as int) =~= needle@);
        }
        return true;
    }
    let mut i: usize = 0;
    while i <= n - m
        invariant
            0 < m <= n,
            n == hay@.len(),
            m == needle@.len(),
            0 <= i <= n - m + 1,
            forall|j: int|
                0 <= j < i ==> #[trigger] hay@.subrange(j, j + needle@.len()) != needle@,
        decreases n - i,
    {
        let mut k: usize = 0;
        let mut mismatch = false;
        while k < m
            invariant
                0 < m <= n,
                n == hay@.len(),
                m == needle@.len(),
                0 <= i <= n - m,
                0 <= k <= m,
                !mismatch ==> forall|t: int| 0 <= t < k ==> hay@[i + t] == #[trigger] needle@[t],
                mismatch ==> hay@.subrange(i as int, i + needle@.len()) != needle@,
            decreases m - k,
        {
            if hay.get_char(i + k) != needle.get_char(k) {
                proof {
                    assert(hay@.subrange(i as int, i + needle@.len())[k as int] == hay@[i + k]);
                }
                mismatch = true;
                k = m;
            } else {
                k = k + 1;
            }
        }
        if !mismatch {
            proof {
                assert(hay@.subrange(i as int, i + needle@.len()) =~= needle@);
            }
            return true;
        }
        i = i + 1;
    }
    proof {
        assert(forall|j: int|
            0 <= j && j + needle@.len() <= hay@.len() ==> #[trigger] hay@.subrange(
                j,
                j + needle@.len(),
            ) != needle@);
    }
    false
}

/// The error message says the root is not registered with the service: it
/// holds one of the two known phrases.
pub open spec fn is_unwatched_message(m: Seq<char>) -> bool {
    contains_seq(m, "unable to resolve root"@) || contains_seq(m, "is not watched"@)
}

/// Matches the service's error text against the two phrases that mean "root
/// not watched". This string matching is the one fragile surface of the
/// service's error-reporting contract, kept in this single place.
pub fn message_means_unwatched(message: &str) -> (r: bool)
    ensures
        r == is_unwatched_message(message@),
{
    contains_str(message, "unable to resolve root") || contains_str(message, "is not watched")
}

/// The outcome of the one query this invocation sends, as plain values: a
/// structured reply, a protocol-level error reply, or a transport-level
/// failure (the service could not be reached at all).
#[derive(Debug, PartialEq, Eq)]
pub enum QueryOutcome {
    Reply { files: Option<Vec<String>>, clock: Option<String> },
    ServiceError { message: String },
    TransportFailure { message: String },
}

/// What the bridge does with a query outcome.
#[derive(Debug, PartialEq, Eq)]
pub enum QueryClassification {
    /// Emit this answer and exit successfully.
    Output { set: ChangedSet },
    /// Recover: establish a watch, then continue with `after_watch`.
    EstablishWatch,
    /// Fatal; report and exit non-zero, with nothing on standard output.
    Fail { error: BridgeError },
}

/// The only outcome that enters the recovery path: an error reply whose
/// message says the root is not watched.
pub open spec fn triggers_recovery(outcome: QueryOutcome) -> bool {
    outcome matches QueryOutcome::ServiceError { message } && is_unwatched_message(message@)
}

/// Classifies the query outcome. A transport failure is always fatal; an
/// error reply recovers exactly when its message names an unwatched root; a
/// reply must carry the file list, and for V2 a missing clock degrades to an
/// empty continuation token.
pub fn classify_query(version: HookVersion, outcome: QueryOutcome) -> (r: QueryClassification)
    ensures
        r is EstablishWatch <==> triggers_recovery(outcome),
        outcome matches QueryOutcome::TransportFailure { message } ==> ({
            &&& r matches QueryClassification::Fail { error }
            &&& error matches BridgeError::ServiceUnavailable { message: m }
            &&& m == message
        }),
        outcome matches QueryOutcome::ServiceError { message } ==> ({
            &&& !is_unwatched_message(message@) ==> ({
                &&& r matches QueryClassification::Fail { error }
                &&& error matches BridgeError::UnexpectedServiceError { message: m }
                &&& m == message
            })
        }),
        outcome matches QueryOutcome::Reply { files: None, .. } ==> ({
            &&& r matches QueryClassification::Fail { error }
            &&& error is MalformedResponse
        }),
        outcome matches QueryOutcome::Reply { files: Some(fs), clock } ==> ({
            &&& version is V1 ==> ({
                &&& r matches QueryClassification::Output { set }
                &&& set matches ChangedSet::V1 { paths }
                &&& paths == fs
            })
            &&& version is V2 ==> ({
                &&& r matches QueryClassification::Output { set }
                &&& set matches ChangedSet::V2 { token, paths }
                &&& clock matches Some(c) ==> token == c
                &&& clock is None ==> token@ == Seq::<char>::empty()
                &&& paths == fs
            })
        }),
{
    match outcome {
        QueryOutcome::TransportFailure { message } => QueryClassification::Fail {
            error: BridgeError::ServiceUnavailable { message },
        },
        QueryOutcome::ServiceError { message } => {
            if message_means_unwatched(message.as_str()) {
                QueryClassification::EstablishWatch
            } else {
                QueryClassification::Fail {
                    error: BridgeError::UnexpectedServiceError { message },
                }
            }
        },
        QueryOutcome::Reply { files: None, .. } => QueryClassification::Fail {
            error: BridgeError::MalformedResponse,
        },
        QueryOutcome::Reply { files: Some(paths), clock } => {
            match version {
                HookVersion::V1 => QueryClassification::Output {
                    set: ChangedSet::V1 { paths },
                },
                HookVersion::V2 => {
                    let token = match clock {
                        Some(c) => c,
                        None => String::new(),
                    };
                    QueryClassification::Output {
                        set: ChangedSet::V2 { token, paths },
                    }
                },
            }
        },
    }
}

/// The watch request's outcome, as the caller saw it.
#[derive(Debug, PartialEq, Eq)]
pub enum WatchOutcome {
    Established,
    Failed { message: String },
}

/// The next move of the recovery path.
#[derive(Debug, PartialEq, Eq)]
pub enum RecoveryStep {
    /// Emit this answer and exit successfully.
    Output { set: ChangedSet },
    /// V2 only: ask the service for a fresh clock, then continue with
    /// `after_clock`.
    RequestClock,
    /// Fatal; report and exit non-zero, with nothing on standard output.
    Fail { error: BridgeError },
}

/// Continues recovery once the watch request has returned. A failed watch is
/// fatal; with the watch established, V1 answers "everything changed" at
/// once, while V2 first needs a fresh continuation token.
pub fn after_watch(version: HookVersion, outcome: WatchOutcome) -> (r: RecoveryStep)
    ensures
        outcome matches WatchOutcome::Failed { message } ==> ({
            &&& r matches RecoveryStep::Fail { error }
            &&& error matches BridgeError::WatchFailed { message: m }
            &&& m == message
        }),
        outcome is Established && version is V1 ==> ({
            &&& r matches RecoveryStep::Output { set }
            &&& set is V1Everything
        }),
        outcome is Established && version is V2 ==> r is RequestClock,
{
    match outcome {
        WatchOutcome::Failed { message } => RecoveryStep::Fail {
            error: BridgeError::WatchFailed { message },
        },
        WatchOutcome::Established => match version {
            HookVersion::V1 => RecoveryStep::Output { set: ChangedSet::V1Everything },
            HookVersion::V2 => RecoveryStep::RequestClock,
        },
    }
}

/// The clock request's outcome: the fresh token if the service produced an
/// opaque clock string (`None` where it answered with a plain timestamp),
/// or a failure.
#[derive(Debug, PartialEq, Eq)]
pub enum ClockOutcome {
    Clock { token: Option<String> },
    Failed { message: String },
}

/// Finishes V2 recovery once the clock request has returned. A failure is
/// fatal; otherwise the answer is full invalidation carrying the fresh
/// token, degraded to an empty token where the service gave none.
pub fn after_clock(outcome: ClockOutcome) -> (r: RecoveryStep)
    ensures
        !(r is RequestClock),
        outcome matches ClockOutcome::Failed { message } ==> ({
            &&& r matches RecoveryStep::Fail { error }
            &&& error matches BridgeError::ClockFailed { message: m }
            &&& m == message
        }),
        outcome matches ClockOutcome::Clock { token: Some(t) } ==> ({
            &&& r matches RecoveryStep::Output { set }
            &&& set matches ChangedSet::V2Everything { token }
            &&& token == t
        }),
        outcome matches ClockOutcome::Clock { token: None } ==> ({
            &&& r matches RecoveryStep::Output { set }
            &&& set matches ChangedSet::V2Everything { token }
            &&& token@ == Seq::<char>::empty()
        }),
{
    match outcome {
        ClockOutcome::Failed { message } => RecoveryStep::Fail {
            error: BridgeError::ClockFailed { message },
        },
        ClockOutcome::Clock { token: Some(token) } => RecoveryStep::Output {
            set: ChangedSet::V2Everything { token },
        },
        ClockOutcome::Clock { token: None } => RecoveryStep::Output {
            set: ChangedSet::V2Everything { token: String::new() },
        },
    }
}

/// Recovery is entered only when the service itself reports the root
/// unwatched. In particular a successful reply — such as the reply to a
/// query whose token is the clock a previous invocation handed back — never
/// re-triggers the watch-establishing path, and neither does a transport
/// failure (which is fatal instead).
pub proof fn lemma_recovery_only_for_unwatched_root(outcome: QueryOutcome)
    requires
        outcome matches QueryOutcome::Reply { .. } || outcome matches QueryOutcome::TransportFailure { .. },
    ensures
        !triggers_recovery(outcome),
{
}

} // verus!
