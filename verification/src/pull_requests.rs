//! Pull-request webhook events: the payload's shape and the notification
//! text built from it.  Receiving the payload and sending the notification
//! happen outside the library.

use vstd::prelude::*;
use vstd::string::StringExecFns;
use crate::decimal::{dec_rep, u64_dec};
use crate::text::str_eq;

verus! {

/// A branch reference in a pull-request payload.
pub struct BranchRef {
    /// The branch name the reference points at.
    pub name: String,
}

/// The repository a pull request belongs to.
pub struct Repository {
    /// Owner-qualified repository name.
    pub full_name: String,
}

/// The user that triggered the event.
pub struct Sender {
    /// The user's login name.
    pub login: String,
}

/// The pull request itself.
pub struct PullRequest {
    /// Link to the pull request.
    pub html_url: String,
    /// Title of the pull request.
    pub title: String,
    /// Source branch.
    pub head: BranchRef,
    /// Target branch.
    pub base: BranchRef,
}

/// A pull-request webhook event.
pub struct PullRequestEvent {
    /// The payload's action tag.
    pub action: String,
    /// The pull request the event concerns.
    pub pull_request: PullRequest,
    /// The repository it belongs to.
    pub repository: Repository,
    /// The user that triggered it.
    pub sender: Sender,
}

/// The notification text for a freshly opened pull request, mentioning the
/// developer role.
pub open spec fn spec_pull_request_message(role_id: u64, ev: PullRequestEvent) -> Seq<char> {
    "<@&"@ + dec_rep(role_id as nat) + "> New PR in **"@ + ev.repository.full_name@ + "** by `"@
        + ev.sender.login@ + "`:\n**"@ + ev.pull_request.title@ + "**\n`"@
        + ev.pull_request.head.name@ + "` → `"@ + ev.pull_request.base.name@ + "`\n"@
        + ev.pull_request.html_url@
}

/// Builds the notification for a pull-request event, exactly when the event
/// reports a newly opened pull request; any other action is ignored.
pub fn pull_request_notice(role_id: u64, ev: &PullRequestEvent) -> (r: Option<String>)
    ensures
        r is Some <==> ev.action@ == "opened"@,
        r matches Some(m) ==> m@ == spec_pull_request_message(role_id, *ev),
{
    if !str_eq(ev.action.as_str(), "opened") {
        return None;
    }
    let mut m = "<@&".to_owned();
    m.append(u64_dec(role_id).as_str());
    m.append("> New PR in **");
    m.append(ev.repository.full_name.as_str());
    m.append("** by `");
    m.append(ev.sender.login.as_str());
    m.append("`:\n**");
    m.append(ev.pull_request.title.as_str());
    m.append("**\n`");
    m.append(ev.pull_request.head.name.as_str());
    m.append("` → `");
    m.append(ev.pull_request.base.name.as_str());
    m.append("`\n");
    m.append(ev.pull_request.html_url.as_str());
    proof {
        assert(m@ =~= spec_pull_request_message(role_id, *ev));
    }
    Some(m)
}

} // verus!
