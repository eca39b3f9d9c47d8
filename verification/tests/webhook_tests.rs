use opsbot::commands::{restart_reply, route_command, task_report, uptime_reply, CommandRoute};
use opsbot::pins::{content_has_signature, pins_to_unpin, PinnedMessage};
use opsbot::pull_requests;
use opsbot::review_requests;
use opsbot::webhook::{route_event, EventRoute};
use opsbot::workflow_runs;

fn pr_event(action: &str) -> pull_requests::PullRequestEvent {
    pull_requests::PullRequestEvent {
        action: String::from(action),
        pull_request: pull_requests::PullRequest {
            html_url: String::from("https://example.test/pr/1"),
            title: String::from("Add feature"),
            head: pull_requests::BranchRef { name: String::from("feature") },
            base: pull_requests::BranchRef { name: String::from("main") },
        },
        repository: pull_requests::Repository { full_name: String::from("acme/widgets") },
        sender: pull_requests::Sender { login: String::from("alice") },
    }
}

#[test]
fn routes_deliveries_by_header_and_action() {
    assert_eq!(route_event(Some("pull_request"), "opened"), EventRoute::PullRequestOpened);
    assert_eq!(
        route_event(Some("pull_request"), "review_requested"),
        EventRoute::ReviewRequested
    );
    assert_eq!(route_event(Some("pull_request"), "closed"), EventRoute::Ignored);
    assert_eq!(route_event(Some("workflow_run"), "completed"), EventRoute::WorkflowRun);
    assert_eq!(route_event(Some("workflow_run"), "requested"), EventRoute::WorkflowRun);
    assert_eq!(route_event(Some("push"), "opened"), EventRoute::Unsupported);
    assert_eq!(route_event(None, "opened"), EventRoute::Unsupported);
}

#[test]
fn pull_request_notice_text() {
    let ev = pr_event("opened");
    let msg = pull_requests::pull_request_notice(17, &ev).unwrap();
    assert_eq!(
        msg,
        "<@&17> New PR in **acme/widgets** by `alice`:\n**Add feature**\n`feature` \u{2192} `main`\nhttps://example.test/pr/1"
    );
}

#[test]
fn pull_request_other_action_gives_no_notice() {
    let ev = pr_event("closed");
    assert!(pull_requests::pull_request_notice(17, &ev).is_none());
}

fn review_event(action: &str, reviewer: Option<&str>) -> review_requests::PullRequestReviewRequestedEvent {
    review_requests::PullRequestReviewRequestedEvent {
        action: String::from(action),
        pull_request: review_requests::PullRequest {
            html_url: String::from("https://example.test/pr/2"),
            title: String::from("Fix bug"),
        },
        repository: review_requests::Repository { full_name: String::from("acme/widgets") },
        requested_reviewer: reviewer.map(|r| review_requests::User { login: String::from(r) }),
        sender: review_requests::User { login: String::from("bob") },
    }
}

#[test]
fn review_notice_uses_mention_when_known() {
    let ev = review_event("review_requested", Some("carol"));
    let msg = review_requests::review_request_notice(&ev, Some("<@111>")).unwrap();
    assert_eq!(
        msg,
        "`bob` requested a review from <@111> on PR in **acme/widgets**:\n**Fix bug**\nhttps://example.test/pr/2"
    );
}

#[test]
fn review_notice_falls_back_to_login() {
    let ev = review_event("review_requested", Some("carol"));
    let msg = review_requests::review_request_notice(&ev, None).unwrap();
    assert_eq!(
        msg,
        "`bob` requested a review from `carol` on PR in **acme/widgets**:\n**Fix bug**\nhttps://example.test/pr/2"
    );
}

#[test]
fn review_notice_without_reviewer_uses_placeholder() {
    let ev = review_event("review_requested", None);
    let msg = review_requests::review_request_notice(&ev, None).unwrap();
    assert!(msg.contains("a review from `(unknown)`"));
}

#[test]
fn review_notice_other_action_gives_no_notice() {
    let ev = review_event("submitted", Some("carol"));
    assert!(review_requests::review_request_notice(&ev, None).is_none());
}

fn workflow_event(action: &str, status: Option<&str>, conclusion: Option<&str>) -> workflow_runs::WorkflowRunEvent {
    workflow_runs::WorkflowRunEvent {
        action: String::from(action),
        workflow_run: workflow_runs::WorkflowRun {
            html_url: String::from("https://example.test/run/3"),
            name: String::from("CI"),
            status: status.map(String::from),
            conclusion: conclusion.map(String::from),
        },
        repository: workflow_runs::Repository { full_name: String::from("acme/widgets") },
    }
}

#[test]
fn workflow_notice_reports_completion() {
    let ev = workflow_event("completed", Some("completed"), Some("success"));
    let msg = workflow_runs::workflow_run_notice(&ev).unwrap();
    assert_eq!(
        msg,
        "Workflow run **CI** in **acme/widgets** completed with status `completed` and result `success`:\nhttps://example.test/run/3"
    );
}

#[test]
fn workflow_notice_fills_unknown_fields() {
    let ev = workflow_event("completed", None, None);
    let msg = workflow_runs::workflow_run_notice(&ev).unwrap();
    assert!(msg.contains("status `unknown` and result `unknown`"));
}

#[test]
fn workflow_notice_ignores_other_actions() {
    let ev = workflow_event("requested", Some("queued"), None);
    assert!(workflow_runs::workflow_run_notice(&ev).is_none());
}

#[test]
fn signature_matching_is_substring_based() {
    assert!(content_has_signature("```\nSystem Status (updates every 5s)\n..."));
    assert!(content_has_signature("System Status"));
    assert!(!content_has_signature("system status"));
    assert!(!content_has_signature(""));
}

#[test]
fn unpin_list_keeps_only_signed_bot_pins() {
    let pins = vec![
        PinnedMessage { id: 1, from_bot: true, content: String::from("System Status x") },
        PinnedMessage { id: 2, from_bot: false, content: String::from("System Status y") },
        PinnedMessage { id: 3, from_bot: true, content: String::from("unrelated") },
        PinnedMessage { id: 4, from_bot: true, content: String::from("old System Status") },
    ];
    assert_eq!(pins_to_unpin(&pins), vec![1, 4]);
}

#[test]
fn command_names_route_to_commands() {
    assert_eq!(route_command("status"), CommandRoute::Status);
    assert_eq!(route_command("health"), CommandRoute::Health);
    assert_eq!(route_command("uptime"), CommandRoute::Uptime);
    assert_eq!(route_command("restart"), CommandRoute::Restart);
    assert_eq!(route_command("clean"), CommandRoute::Clean);
    assert_eq!(route_command("fresh"), CommandRoute::Fresh);
    assert_eq!(route_command("migrate"), CommandRoute::Migrate);
    assert_eq!(route_command("restart_api"), CommandRoute::RestartApi);
    assert_eq!(route_command("start_api"), CommandRoute::StartApi);
    assert_eq!(route_command("stop_api"), CommandRoute::StopApi);
    assert_eq!(route_command("tail_logs"), CommandRoute::TailLogs);
    assert_eq!(route_command("reboot"), CommandRoute::Reboot);
    assert_eq!(route_command("dance"), CommandRoute::Unknown);
}

#[test]
fn command_reply_texts() {
    assert_eq!(uptime_reply("up 3 days"), "`up 3 days`");
    assert_eq!(
        restart_reply("nginx", true, ""),
        "\u{2705} Restarted `nginx` successfully."
    );
    assert_eq!(
        restart_reply("nginx", false, "boom"),
        "\u{274c} Failed to restart `nginx`:\n```boom```"
    );
    assert_eq!(
        task_report("Clean", true, "done", ""),
        "\u{2705} **Clean** executed successfully:\n```done```"
    );
    assert_eq!(
        task_report("Clean", false, "", "err"),
        "\u{274c} **Clean** failed:\n```err```"
    );
}
