//! The proving session as an explicit state machine. The backend reports a
//! status on every poll; the orchestrator's decision for each report is a
//! pure function, so the poll loop around it only performs the chosen
//! action and hands the next report back.

use vstd::prelude::*;

verus! {

/// One observed status report of a proving session. `Running` is the only
/// non-terminal state; every other backend status is terminal.
#[derive(Debug)]
pub enum SessionStatus {
    /// The session is still proving; `state` names the pipeline stage.
    Running { state: Option<String> },
    /// The session finished and a receipt should be available for download.
    Succeeded { receipt_url: Option<String> },
    /// The session ended in any terminal status other than success; the
    /// backend's status word and error message are carried along.
    Failed { status: String, error_msg: Option<String> },
}

/// What the orchestrator does after one status report.
#[derive(Debug)]
pub enum PollAction {
    /// Keep polling: the session was still running.
    Continue,
    /// Download the receipt from this URL; only a successful terminal
    /// report yields it.
    Download(String),
    /// Protocol violation: a successful session carried no receipt URL.
    MissingReceiptUrl,
    /// The session ended without success; report the backend's words.
    Failed { status: String, error_msg: Option<String> },
}

/// How a backend status response is read: the two documented status words
/// are recognised, and any other word is a terminal failure.
pub open spec fn spec_classify(
    status: String,
    state: Option<String>,
    receipt_url: Option<String>,
    error_msg: Option<String>,
) -> SessionStatus {
    if status@ == "RUNNING"@ {
        SessionStatus::Running { state }
    } else if status@ == "SUCCEEDED"@ {
        SessionStatus::Succeeded { receipt_url }
    } else {
        SessionStatus::Failed { status, error_msg }
    }
}

fn str_eq(a: &str, b: &str) -> (r: bool)
    ensures
        r == (a@ == b@),
{
    let x: String = a.to_owned();
    let y: String = b.to_owned();
    x == y
}

/// Turns one raw backend status response into the session state machine's
/// tagged form.
pub fn classify_status(
    status: String,
    state: Option<String>,
    receipt_url: Option<String>,
    error_msg: Option<String>,
) -> (r: SessionStatus)
    ensures
        r == spec_classify(status, state, receipt_url, error_msg),
{
    if str_eq(status.as_str(), "RUNNING") {
        SessionStatus::Running { state }
    } else if str_eq(status.as_str(), "SUCCEEDED") {
        SessionStatus::Succeeded { receipt_url }
    } else {
        SessionStatus::Failed { status, error_msg }
    }
}

/// The orchestrator's decision for one status report: poll again while
/// running, download exactly on a successful report that carries a receipt
/// URL, and stop with a distinct report otherwise.
pub open spec fn poll_action_of(s: SessionStatus) -> PollAction {
    match s {
        SessionStatus::Running { .. } => PollAction::Continue,
        SessionStatus::Succeeded { receipt_url: Some(u) } => PollAction::Download(u),
        SessionStatus::Succeeded { receipt_url: None } => PollAction::MissingReceiptUrl,
        SessionStatus::Failed { status, error_msg } => PollAction::Failed { status, error_msg },
    }
}

/// Decides what to do after one status report.
pub fn poll_step(s: SessionStatus) -> (r: PollAction)
    ensures
        r == poll_action_of(s),
{
    match s {
        SessionStatus::Running { .. } => PollAction::Continue,
        SessionStatus::Succeeded { receipt_url: Some(u) } => PollAction::Download(u),
        SessionStatus::Succeeded { receipt_url: None } => PollAction::MissingReceiptUrl,
        SessionStatus::Failed { status, error_msg } => PollAction::Failed { status, error_msg },
    }
}

/// The action a whole polling run ends in: the decision for the first
/// non-running report, or `Continue` when every report so far was running.
pub open spec fn first_action(reports: Seq<SessionStatus>) -> PollAction
    decreases reports.len(),
{
    if reports.len() == 0 {
        PollAction::Continue
    } else if !(reports.first() is Running) {
        poll_action_of(reports.first())
    } else {
        first_action(reports.drop_first())
    }
}

fn clone_opt_string(o: &Option<String>) -> (r: Option<String>)
    ensures
        r == *o,
{
    match o {
        Some(s) => Some(s.clone()),
        None => None,
    }
}

/// Replays a sequence of observed status reports through the poll
/// decision: reports after the first terminal one are never looked at, so
/// a run downloads at most once, and only after the terminal state.
pub fn drive_session(reports: &Vec<SessionStatus>) -> (r: PollAction)
    ensures
        r == first_action(reports@),
{
    let mut i: usize = 0;
    proof {
        assert(reports@.skip(0) =~= reports@);
    }
    loop
        invariant
            i <= reports@.len(),
            first_action(reports@) == first_action(reports@.skip(i as int)),
        decreases reports@.len() - i,
    {
        if i == reports.len() {
            return PollAction::Continue;
        }
        proof {
            assert(reports@.skip(i as int).first() == reports@[i as int]);
            assert(reports@.skip(i as int).drop_first() =~= reports@.skip(i + 1));
        }
        match &reports[i] {
            SessionStatus::Running { .. } => {
                i = i + 1;
            },
            SessionStatus::Succeeded { receipt_url } => {
                match receipt_url {
                    Some(u) => {
                        return PollAction::Download(u.clone());
                    },
                    None => {
                        return PollAction::MissingReceiptUrl;
                    },
                }
            },
            SessionStatus::Failed { status, error_msg } => {
                return PollAction::Failed {
                    status: status.clone(),
                    error_msg: clone_opt_string(error_msg),
                };
            },
        }
    }
}

/// A session that reports running some number of times and then succeeds
/// with a receipt URL ends the run in exactly that one download.
pub proof fn lemma_poll_downloads_first_terminal(reports: Seq<SessionStatus>, k: int, u: String)
    requires
        0 <= k < reports.len(),
        forall|j: int| 0 <= j < k ==> reports[j] is Running,
        reports[k] == (SessionStatus::Succeeded { receipt_url: Some(u) }),
    ensures
        first_action(reports) == PollAction::Download(u),
    decreases k,
{
    if k == 0 {
        assert(reports.first() == reports[0]);
    } else {
        assert(reports.first() == reports[0]);
        assert(reports[0] is Running);
        let rest = reports.drop_first();
        assert(rest[k - 1] == reports[k]);
        assert(forall|j: int| 0 <= j < k - 1 ==> rest[j] == reports[j + 1] && rest[j] is Running);
        lemma_poll_downloads_first_terminal(rest, k - 1, u);
    }
}

} // verus!
