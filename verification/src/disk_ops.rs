//! Disk usage and clean-up: what the reports of `du`, `journalctl` and the
//! clean-up commands mean.

use crate::command::CommandOutput;
use crate::text::{
    after_first, before_first, first_word, head_before, rest_after, same, str_of, trim, trimmed,
    words_of,
};
use vstd::prelude::*;

verus! {

/// How much room each kind of data takes, as the tools word it.
#[derive(Clone, Debug)]
pub struct DiskUsageBreakdown {
    pub target_size: String,
    pub node_modules_size: String,
    pub docker_size: String,
    pub logs_size: String,
}

/// What the agent can clean up.
#[derive(Clone, Copy, Debug, PartialEq, Eq, Structural)]
pub enum CleanTarget {
    Target,
    NodeModules,
    Docker,
    Logs,
}

/// The size that `du -sh` reports: the first word of its output; `0B` where
/// it failed or wrote nothing.
pub open spec fn dir_size(report: Option<Seq<char>>) -> Seq<char> {
    match report {
        Some(text) => if words_of(text).len() > 0 {
            words_of(text)[0]
        } else {
            "0B"@
        },
        None => "0B"@,
    }
}

/// The size that `journalctl --disk-usage` reports: in the text after the
/// first `take up ` and before the next, what stands before the first blank;
/// `Unknown` where the command failed or the words are not there.
pub open spec fn logs_size(report: Option<Seq<char>>) -> Seq<char> {
    match report {
        Some(text) => match after_first(text, "take up "@) {
            Some(rest) => before_first(before_first(rest, "take up "@), " "@),
            None => "Unknown"@,
        },
        None => "Unknown"@,
    }
}

/// The clean-up that a request names.
pub open spec fn clean_target_of(name: Seq<char>) -> Option<CleanTarget> {
    if name == "target"@ {
        Some(CleanTarget::Target)
    } else if name == "node_modules"@ {
        Some(CleanTarget::NodeModules)
    } else if name == "docker"@ {
        Some(CleanTarget::Docker)
    } else if name == "logs"@ {
        Some(CleanTarget::Logs)
    } else {
        None
    }
}

/// What a clean-up command that only has to succeed comes to: `done` on
/// success, else what the command wrote to its standard error, or why it
/// could not be started.
pub open spec fn cleaned(run: Result<(bool, Seq<char>, Seq<char>), Seq<char>>, done: Seq<char>)
    -> Result<Seq<char>, Seq<char>> {
    match run {
        Err(why) => Err(why),
        Ok((success, stdout, stderr)) => if success {
            Ok(done)
        } else {
            Err(stderr)
        },
    }
}

/// What a clean-up command that reports on its work comes to: on success its
/// report, or `silent` where the report is blank; else what the command
/// wrote to its standard error, or why it could not be started.
pub open spec fn cleaned_with_report(
    run: Result<(bool, Seq<char>, Seq<char>), Seq<char>>,
    report_on_stderr: bool,
    silent: Seq<char>,
) -> Result<Seq<char>, Seq<char>> {
    match run {
        Err(why) => Err(why),
        Ok((success, stdout, stderr)) => if success {
            let report = if report_on_stderr {
                stderr
            } else {
                stdout
            };
            if trimmed(report).len() == 0 {
                Ok(silent)
            } else {
                Ok(report)
            }
        } else {
            Err(stderr)
        },
    }
}

/// A run of a command as plain values: its output, or why it could not be
/// started.
pub open spec fn run_view(run: Result<CommandOutput, String>) -> Result<
    (bool, Seq<char>, Seq<char>),
    Seq<char>,
> {
    match run {
        Ok(o) => Ok((o.success, o.stdout@, o.stderr@)),
        Err(why) => Err(why@),
    }
}

/// A result of texts as plain values.
pub open spec fn result_view(result: Result<String, String>) -> Result<Seq<char>, Seq<char>> {
    match result {
        Ok(text) => Ok(text@),
        Err(text) => Err(text@),
    }
}

/// The disk tools, read.
pub struct DiskOps;

impl DiskOps {
    /// The directory whose size counts as the build output of `root_dir`.
    pub fn target_dir(root_dir: &str) -> (path: String)
        ensures
            path@ == root_dir@ + "/target"@,
    {
        let mut path = root_dir.to_owned();
        path.append("/target");
        path
    }

    /// The directory of the front end's packages under `root_dir`.
    pub fn node_modules_dir(root_dir: &str) -> (path: String)
        ensures
            path@ == root_dir@ + "/frontend/node_modules"@,
    {
        let mut path = root_dir.to_owned();
        path.append("/frontend/node_modules");
        path
    }

    /// The size of a directory from the output of `du -sh` on it; `None`
    /// stands for a run that failed.
    pub fn get_dir_size(report: Option<&str>) -> (size: String)
        ensures
            size@ == dir_size(str_of(report)),
    {
        match report {
            Some(text) => match first_word(text) {
                Some(word) => word.to_owned(),
                None => "0B".to_owned(),
            },
            None => "0B".to_owned(),
        }
    }

    /// The size of the journal from the output of `journalctl --disk-usage`;
    /// `None` stands for a run that failed.
    pub fn get_logs_size(report: Option<&str>) -> (size: String)
        ensures
            size@ == logs_size(str_of(report)),
    {
        match report {
            Some(text) => match rest_after(text, "take up ") {
                Some(rest) => head_before(head_before(rest, "take up "), " ").to_owned(),
                None => "Unknown".to_owned(),
            },
            None => "Unknown".to_owned(),
        }
    }

    /// The size of Docker's data from the output of `du -sh` on its
    /// directory.
    pub fn get_docker_size(report: Option<&str>) -> (size: String)
        ensures
            size@ == dir_size(str_of(report)),
    {
        Self::get_dir_size(report)
    }

    /// The usage report from the outputs of the four measurements: `du -sh`
    /// on the build output, on the front end's packages and on Docker's
    /// data, and `journalctl --disk-usage`. `None` stands for a run that
    /// failed.
    pub fn get_usage(
        target: Option<&str>,
        node_modules: Option<&str>,
        docker: Option<&str>,
        logs: Option<&str>,
    ) -> (usage: DiskUsageBreakdown)
        ensures
            usage.target_size@ == dir_size(str_of(target)),
            usage.node_modules_size@ == dir_size(str_of(node_modules)),
            usage.docker_size@ == dir_size(str_of(docker)),
            usage.logs_size@ == logs_size(str_of(logs)),
    {
        DiskUsageBreakdown {
            target_size: Self::get_dir_size(target),
            node_modules_size: Self::get_dir_size(node_modules),
            docker_size: Self::get_docker_size(docker),
            logs_size: Self::get_logs_size(logs),
        }
    }

    /// The clean-up that a request names; `None` for a name that is none.
    pub fn parse_target(name: &str) -> (target: Option<CleanTarget>)
        ensures
            target == clean_target_of(name@),
    {
        if same(name, "target") {
            Some(CleanTarget::Target)
        } else if same(name, "node_modules") {
            Some(CleanTarget::NodeModules)
        } else if same(name, "docker") {
            Some(CleanTarget::Docker)
        } else if same(name, "logs") {
            Some(CleanTarget::Logs)
        } else {
            None
        }
    }

    /// What a run of `cargo clean` comes to.
    pub fn clean_target(run: Result<CommandOutput, String>) -> (result: Result<String, String>)
        ensures
            result_view(result) == cleaned(
                run_view(run),
                "Target cleaned (cargo clean executed)."@,
            ),
    {
        match run {
            Err(why) => Err(why),
            Ok(output) => if output.success {
                Ok("Target cleaned (cargo clean executed).".to_owned())
            } else {
                Err(output.stderr)
            },
        }
    }

    /// What the removal of the front end's packages comes to.
    pub fn clean_node_modules(run: Result<CommandOutput, String>) -> (result: Result<
        String,
        String,
    >)
        ensures
            result_view(result) == cleaned(run_view(run), "Node modules deleted."@),
    {
        match run {
            Err(why) => Err(why),
            Ok(output) => if output.success {
                Ok("Node modules deleted.".to_owned())
            } else {
                Err(output.stderr)
            },
        }
    }

    /// What a run of `docker system prune` comes to. Its report is on its
    /// standard output.
    pub fn clean_docker(run: Result<CommandOutput, String>) -> (result: Result<String, String>)
        ensures
            result_view(result) == cleaned_with_report(
                run_view(run),
                false,
                "Docker Prune finished (No output)."@,
            ),
    {
        match run {
            Err(why) => Err(why),
            Ok(output) => if output.success {
                if trim(output.stdout.as_str()).is_empty() {
                    Ok("Docker Prune finished (No output).".to_owned())
                } else {
                    Ok(output.stdout)
                }
            } else {
                Err(output.stderr)
            },
        }
    }

    /// What a run of `journalctl --vacuum-time` comes to. Its report is on
    /// its standard error.
    pub fn clean_logs(run: Result<CommandOutput, String>) -> (result: Result<String, String>)
        ensures
            result_view(result) == cleaned_with_report(
                run_view(run),
                true,
                "Logs vacuumed (No output)."@,
            ),
    {
        match run {
            Err(why) => Err(why),
            Ok(output) => if output.success {
                if trim(output.stderr.as_str()).is_empty() {
                    Ok("Logs vacuumed (No output).".to_owned())
                } else {
                    Ok(output.stderr)
                }
            } else {
                Err(output.stderr)
            },
        }
    }
}

} // verus!
