//! Slash-command dispatch and the reply texts of the administrative
//! commands.  Running the shell commands and talking to the chat gateway
//! happen outside the library; this module decides which command a name
//! denotes and what reply each outcome produces.

use vstd::prelude::*;
use vstd::string::StringExecFns;
use crate::text::str_eq;

verus! {

/// The command a slash-command name denotes.
#[derive(Clone, Copy, Debug, PartialEq, Eq, Structural)]
pub enum CommandRoute {
    /// Show the current system status.
    Status,
    /// Confirm the bot is responsive.
    Health,
    /// Show the operating system's uptime.
    Uptime,
    /// Restart a named system service.
    Restart,
    /// Run the build clean task.
    Clean,
    /// Run the rebuild task.
    Fresh,
    /// Run the migration task.
    Migrate,
    /// Restart the backing API service.
    RestartApi,
    /// Start the backing API service.
    StartApi,
    /// Stop the backing API service.
    StopApi,
    /// Tail the service log.
    TailLogs,
    /// Reboot the host.
    Reboot,
    /// No command of this name is registered.
    Unknown,
}

/// The route of a slash-command name.
pub open spec fn spec_route_command(name: Seq<char>) -> CommandRoute {
    if name == "status"@ {
        CommandRoute::Status
    } else if name == "health"@ {
        CommandRoute::Health
    } else if name == "uptime"@ {
        CommandRoute::Uptime
    } else if name == "restart"@ {
        CommandRoute::Restart
    } else if name == "clean"@ {
        CommandRoute::Clean
    } else if name == "fresh"@ {
        CommandRoute::Fresh
    } else if name == "migrate"@ {
        CommandRoute::Migrate
    } else if name == "restart_api"@ {
        CommandRoute::RestartApi
    } else if name == "start_api"@ {
        CommandRoute::StartApi
    } else if name == "stop_api"@ {
        CommandRoute::StopApi
    } else if name == "tail_logs"@ {
        CommandRoute::TailLogs
    } else if name == "reboot"@ {
        CommandRoute::Reboot
    } else {
        CommandRoute::Unknown
    }
}

/// Routes one slash-command name.
pub fn route_command(name: &str) -> (r: CommandRoute)
    ensures
        r == spec_route_command(name@),
{
    if str_eq(name, "status") {
        CommandRoute::Status
    } else if str_eq(name, "health") {
        CommandRoute::Health
    } else if str_eq(name, "uptime") {
        CommandRoute::Uptime
    } else if str_eq(name, "restart") {
        CommandRoute::Restart
    } else if str_eq(name, "clean") {
        CommandRoute::Clean
    } else if str_eq(name, "fresh") {
        CommandRoute::Fresh
    } else if str_eq(name, "migrate") {
        CommandRoute::Migrate
    } else if str_eq(name, "restart_api") {
        CommandRoute::RestartApi
    } else if str_eq(name, "start_api") {
        CommandRoute::StartApi
    } else if str_eq(name, "stop_api") {
        CommandRoute::StopApi
    } else if str_eq(name, "tail_logs") {
        CommandRoute::TailLogs
    } else if str_eq(name, "reboot") {
        CommandRoute::Reboot
    } else {
        CommandRoute::Unknown
    }
}

/// The reply to the uptime command: the command's output in a code span.
pub open spec fn spec_uptime_reply(output: Seq<char>) -> Seq<char> {
    "`"@ + output + "`"@
}

/// Builds the uptime reply.
pub fn uptime_reply(output: &str) -> (r: String)
    ensures
        r@ == spec_uptime_reply(output@),
{
    let mut m = "`".to_owned();
    m.append(output);
    m.append("`");
    proof {
        assert(m@ =~= spec_uptime_reply(output@));
    }
    m
}

/// The reply confirming the bot is alive.
pub fn health_reply() -> (r: String)
    ensures
        r@ == "✅ Bot is alive."@,
{
    "✅ Bot is alive.".to_owned()
}

/// The reply after restarting a named service successfully.
pub open spec fn spec_restart_success(service: Seq<char>) -> Seq<char> {
    "✅ Restarted `"@ + service + "` successfully."@
}

/// The reply after a named service failed to restart.
pub open spec fn spec_restart_failure(service: Seq<char>, err: Seq<char>) -> Seq<char> {
    "❌ Failed to restart `"@ + service + "`:\n```"@ + err + "```"@
}

/// Builds the restart reply from the outcome: success, or failure with the
/// error output.
pub fn restart_reply(service: &str, ok: bool, err: &str) -> (r: String)
    ensures
        ok ==> r@ == spec_restart_success(service@),
        !ok ==> r@ == spec_restart_failure(service@, err@),
{
    if ok {
        let mut m = "✅ Restarted `".to_owned();
        m.append(service);
        m.append("` successfully.");
        proof {
            assert(m@ =~= spec_restart_success(service@));
        }
        m
    } else {
        let mut m = "❌ Failed to restart `".to_owned();
        m.append(service);
        m.append("`:\n```");
        m.append(err);
        m.append("```");
        proof {
            assert(m@ =~= spec_restart_failure(service@, err@));
        }
        m
    }
}

/// The report after a labelled shell task succeeded, with its output.
pub open spec fn spec_task_success(label: Seq<char>, stdout: Seq<char>) -> Seq<char> {
    "✅ **"@ + label + "** executed successfully:\n```"@ + stdout + "```"@
}

/// The report after a labelled shell task failed, with its error output.
pub open spec fn spec_task_failure(label: Seq<char>, stderr: Seq<char>) -> Seq<char> {
    "❌ **"@ + label + "** failed:\n```"@ + stderr + "```"@
}

/// Builds the report for a labelled shell task from its outcome.
pub fn task_report(label: &str, ok: bool, stdout: &str, stderr: &str) -> (r: String)
    ensures
        ok ==> r@ == spec_task_success(label@, stdout@),
        !ok ==> r@ == spec_task_failure(label@, stderr@),
{
    if ok {
        let mut m = "✅ **".to_owned();
        m.append(label);
        m.append("** executed successfully:\n```");
        m.append(stdout);
        m.append("```");
        proof {
            assert(m@ =~= spec_task_success(label@, stdout@));
        }
        m
    } else {
        let mut m = "❌ **".to_owned();
        m.append(label);
        m.append("** failed:\n```");
        m.append(stderr);
        m.append("```");
        proof {
            assert(m@ =~= spec_task_failure(label@, stderr@));
        }
        m
    }
}

} // verus!
