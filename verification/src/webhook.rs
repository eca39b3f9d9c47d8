//! Routing of source-control webhook deliveries: which handler a delivery
//! belongs to, decided from the event-type header and the payload's action
//! tag.  The HTTP server, header extraction and payload decoding live
//! outside the library.

use vstd::prelude::*;
use crate::text::str_eq;

verus! {

/// Where a webhook delivery is routed.
#[derive(Clone, Copy, Debug, PartialEq, Eq, Structural)]
pub enum EventRoute {
    /// A pull request was opened: notify the development channel.
    PullRequestOpened,
    /// A review was requested: notify the requested user.
    ReviewRequested,
    /// A workflow run event: report it when it completed.
    WorkflowRun,
    /// A recognized event type whose action asks for no notice.
    Ignored,
    /// An event type this service does not handle.
    Unsupported,
}

/// The route a delivery takes, from the event-type header (where present)
/// and the payload's action tag.
pub open spec fn spec_route(event_type: Option<Seq<char>>, action: Seq<char>) -> EventRoute {
    match event_type {
        Some(et) => if et == "pull_request"@ {
            if action == "opened"@ {
                EventRoute::PullRequestOpened
            } else if action == "review_requested"@ {
                EventRoute::ReviewRequested
            } else {
                EventRoute::Ignored
            }
        } else if et == "workflow_run"@ {
            EventRoute::WorkflowRun
        } else {
            EventRoute::Unsupported
        },
        None => EventRoute::Unsupported,
    }
}

/// Routes one webhook delivery.
pub fn route_event(event_type: Option<&str>, action: &str) -> (r: EventRoute)
    ensures
        r == spec_route(
            match event_type {
                Some(et) => Some(et@),
                None => None,
            },
            action@,
        ),
{
    match event_type {
        Some(et) => {
            if str_eq(et, "pull_request") {
                if str_eq(action, "opened") {
                    EventRoute::PullRequestOpened
                } else if str_eq(action, "review_requested") {
                    EventRoute::ReviewRequested
                } else {
                    EventRoute::Ignored
                }
            } else if str_eq(et, "workflow_run") {
                EventRoute::WorkflowRun
            } else {
                EventRoute::Unsupported
            }
        },
        None => EventRoute::Unsupported,
    }
}

} // verus!
