//! Review-request webhook events: the payload's shape and the notification
//! text built from it.  The optional chat mention for the requested user is
//! looked up outside the library and handed in as a plain value.

use vstd::prelude::*;
use vstd::string::StringExecFns;
use crate::text::str_eq;

verus! {

/// The repository a pull request belongs to.
pub struct Repository {
    /// Owner-qualified repository name.
    pub full_name: String,
}

/// A user in a review-request payload.
pub struct User {
    /// The user's login name.
    pub login: String,
}

/// The pull request a review was requested on.
pub struct PullRequest {
    /// Link to the pull request.
    pub html_url: String,
    /// Title of the pull request.
    pub title: String,
}

/// A review-requested webhook event.
pub struct PullRequestReviewRequestedEvent {
    /// The payload's action tag.
    pub action: String,
    /// The pull request the review was requested on.
    pub pull_request: PullRequest,
    /// The repository it belongs to.
    pub repository: Repository,
    /// The user the request is addressed to, where the payload names one.
    pub requested_reviewer: Option<User>,
    /// The user that requested the review.
    pub sender: User,
}

/// The requested user's login, or a placeholder when the payload names none.
pub open spec fn spec_reviewer_login(ev: PullRequestReviewRequestedEvent) -> Seq<char> {
    match ev.requested_reviewer {
        Some(u) => u.login@,
        None => "(unknown)"@,
    }
}

/// How the requested user is shown: their chat mention where one is known,
/// otherwise their login in backticks.
pub open spec fn spec_reviewer_display(login: Seq<char>, mention: Option<Seq<char>>) -> Seq<char> {
    match mention {
        Some(m) => m,
        None => "`"@ + login + "`"@,
    }
}

/// The notification text for a review request.
pub open spec fn spec_review_request_message(
    ev: PullRequestReviewRequestedEvent,
    mention: Option<Seq<char>>,
) -> Seq<char> {
    "`"@ + ev.sender.login@ + "` requested a review from "@ + spec_reviewer_display(
        spec_reviewer_login(ev),
        mention,
    ) + " on PR in **"@ + ev.repository.full_name@ + "**:\n**"@ + ev.pull_request.title@ + "**\n"@
        + ev.pull_request.html_url@
}

/// Builds the notification for a review-request event, exactly when the
/// event's action reports a requested review; any other action is ignored.
/// `mention` is the chat mention configured for the requested user, where
/// one is known.
pub fn review_request_notice(ev: &PullRequestReviewRequestedEvent, mention: Option<&str>) -> (r:
    Option<String>)
    ensures
        r is Some <==> ev.action@ == "review_requested"@,
        r matches Some(m) ==> m@ == spec_review_request_message(
            *ev,
            match mention {
                Some(s) => Some(s@),
                None => None,
            },
        ),
{
    if !str_eq(ev.action.as_str(), "review_requested") {
        return None;
    }
    let mut m = "`".to_owned();
    m.append(ev.sender.login.as_str());
    m.append("` requested a review from ");
    match mention {
        Some(s) => {
            m.append(s);
        },
        None => {
            m.append("`");
            match &ev.requested_reviewer {
                Some(u) => {
                    m.append(u.login.as_str());
                },
                None => {
                    m.append("(unknown)");
                },
            }
            m.append("`");
        },
    }
    m.append(" on PR in **");
    m.append(ev.repository.full_name.as_str());
    m.append("**:\n**");
    m.append(ev.pull_request.title.as_str());
    m.append("**\n");
    m.append(ev.pull_request.html_url.as_str());
    proof {
        assert(m@ =~= spec_review_request_message(
            *ev,
            match mention {
                Some(s) => Some(s@),
                None => None,
            },
        ));
    }
    Some(m)
}

} // verus!
