//! Workflow-run webhook events: the payload's shape and the notification
//! text built from it.

use vstd::prelude::*;
use vstd::string::StringExecFns;
use crate::text::str_eq;

verus! {

/// The repository a workflow run belongs to.
pub struct Repository {
    /// Owner-qualified repository name.
    pub full_name: String,
}

/// The workflow run itself.
pub struct WorkflowRun {
    /// Link to the run.
    pub html_url: String,
    /// Name of the workflow.
    pub name: String,
    /// Reported status, where the payload carries one.
    pub status: Option<String>,
    /// Reported conclusion, where the payload carries one.
    pub conclusion: Option<String>,
}

/// A workflow-run webhook event.
pub struct WorkflowRunEvent {
    /// The payload's action tag.
    pub action: String,
    /// The run the event concerns.
    pub workflow_run: WorkflowRun,
    /// The repository it belongs to.
    pub repository: Repository,
}

/// An optional payload field, or the placeholder when it is absent.
pub open spec fn spec_field_or_unknown(v: Option<String>) -> Seq<char> {
    match v {
        Some(s) => s@,
        None => "unknown"@,
    }
}

/// The notification text for a completed workflow run.
pub open spec fn spec_workflow_run_message(ev: WorkflowRunEvent) -> Seq<char> {
    "Workflow run **"@ + ev.workflow_run.name@ + "** in **"@ + ev.repository.full_name@
        + "** completed with status `"@ + spec_field_or_unknown(ev.workflow_run.status)
        + "` and result `"@ + spec_field_or_unknown(ev.workflow_run.conclusion) + "`:\n"@
        + ev.workflow_run.html_url@
}

/// Builds the notification for a workflow-run event, exactly when the run
/// completed; any other action is ignored.
pub fn workflow_run_notice(ev: &WorkflowRunEvent) -> (r: Option<String>)
    ensures
        r is Some <==> ev.action@ == "completed"@,
        r matches Some(m) ==> m@ == spec_workflow_run_message(*ev),
{
    if !str_eq(ev.action.as_str(), "completed") {
        return None;
    }
    let mut m = "Workflow run **".to_owned();
    m.append(ev.workflow_run.name.as_str());
    m.append("** in **");
    m.append(ev.repository.full_name.as_str());
    m.append("** completed with status `");
    match &ev.workflow_run.status {
        Some(s) => {
            m.append(s.as_str());
        },
        None => {
            m.append("unknown");
        },
    }
    m.append("` and result `");
    match &ev.workflow_run.conclusion {
        Some(s) => {
            m.append(s.as_str());
        },
        None => {
            m.append("unknown");
        },
    }
    m.append("`:\n");
    m.append(ev.workflow_run.html_url.as_str());
    proof {
        assert(m@ =~= spec_workflow_run_message(*ev));
    }
    Some(m)
}

} // verus!
