//! Containers as the agent lists them, and the settings of a log stream.

use crate::text::{
    decimal, join, joined, number_of, parse_u32, same, str_of, strip_leading, to_decimal,
    without_leading,
};
use vstd::prelude::*;

verus! {

/// The most lines of a log that a stream goes back.
pub const TAIL_LIMIT: u32 = 10000;

/// A container as the agent lists it.
#[derive(Clone, Debug)]
pub struct ContainerInfo {
    pub id: String,
    pub name: String,
    pub image: String,
    pub status: String,
    /// `running`, `exited` and so on.
    pub state: String,
    /// The published ports, `public:private`, with `, ` between them.
    pub ports: String,
}

/// One of a container's ports: the port inside the container, and the
/// host's port where it is published.
#[derive(Clone, Copy, Debug, PartialEq, Eq, Structural)]
pub struct PortMapping {
    pub public_port: Option<u16>,
    pub private_port: u16,
}

/// What the Docker daemon tells of a container. Each part may be missing.
#[derive(Clone, Debug)]
pub struct ContainerSummary {
    pub id: Option<String>,
    pub names: Option<Vec<String>>,
    pub image: Option<String>,
    pub status: Option<String>,
    pub state: Option<String>,
    pub ports: Option<Vec<PortMapping>>,
}

/// What can be done to a container.
#[derive(Clone, Copy, Debug, PartialEq, Eq, Structural)]
pub enum ContainerAction {
    Start,
    Stop,
    Restart,
}

/// The settings of a log stream.
#[derive(Clone, Debug)]
pub struct LogSettings {
    pub follow: bool,
    pub stdout: bool,
    pub stderr: bool,
    /// How many lines to go back: a number, or `all`.
    pub tail: String,
    /// The moment from which on lines are wanted, in seconds since the
    /// start of 1970; zero for all.
    pub since: i32,
}

/// A text, or `fallback` where it is missing.
pub open spec fn text_or(value: Option<String>, fallback: Seq<char>) -> Seq<char> {
    match value {
        Some(text) => text@,
        None => fallback,
    }
}

/// The name a container is listed by: its first name without the slashes
/// at its start; `unknown` where it has no name.
pub open spec fn listed_name(names: Option<Vec<String>>) -> Seq<char> {
    match names {
        Some(all) => if all@.len() > 0 {
            without_leading(all@[0]@, '/')
        } else {
            "unknown"@
        },
        None => "unknown"@,
    }
}

/// A port as it is listed: the public port, zero where there is none, a
/// colon and the private port.
pub open spec fn listed_port(port: PortMapping) -> Seq<char> {
    decimal(
        match port.public_port {
            Some(p) => p as nat,
            None => 0,
        },
    ) + ":"@ + decimal(port.private_port as nat)
}

/// The ports as they are listed, with `, ` between them.
pub open spec fn listed_ports(ports: Option<Vec<PortMapping>>) -> Seq<char> {
    match ports {
        Some(all) => joined(all@.map_values(|p: PortMapping| listed_port(p)), ", "@),
        None => Seq::empty(),
    }
}

/// The action that a request names.
pub open spec fn action_of(name: Seq<char>) -> Option<ContainerAction> {
    if name == "start"@ {
        Some(ContainerAction::Start)
    } else if name == "stop"@ {
        Some(ContainerAction::Stop)
    } else if name == "restart"@ {
        Some(ContainerAction::Restart)
    } else {
        None
    }
}

/// How many lines a stream goes back for a request: `all` is the limit, a
/// number is itself but no more than the limit, and anything else, or
/// nothing, is a hundred.
pub open spec fn tail_of(requested: Option<Seq<char>>) -> Seq<char> {
    match requested {
        Some(text) => if text == "all"@ {
            decimal(TAIL_LIMIT as nat)
        } else {
            match number_of(text) {
                Some(lines) => if lines > TAIL_LIMIT {
                    decimal(TAIL_LIMIT as nat)
                } else {
                    decimal(lines as nat)
                },
                None => "100"@,
            }
        },
        None => "100"@,
    }
}

impl PortMapping {
    /// The port as it is listed.
    pub fn listed(&self) -> (text: String)
        ensures
            text@ == listed_port(*self),
    {
        let public: u16 = match self.public_port {
            Some(p) => p,
            None => 0,
        };
        let mut text = to_decimal(public as u64);
        text.append(":");
        text.append(to_decimal(self.private_port as u64).as_str());
        text
    }
}

/// A listed container as plain values.
pub struct InfoView {
    pub id: Seq<char>,
    pub name: Seq<char>,
    pub image: Seq<char>,
    pub status: Seq<char>,
    pub state: Seq<char>,
    pub ports: Seq<char>,
}

impl View for ContainerInfo {
    type V = InfoView;

    open spec fn view(&self) -> InfoView {
        InfoView {
            id: self.id@,
            name: self.name@,
            image: self.image@,
            status: self.status@,
            state: self.state@,
            ports: self.ports@,
        }
    }
}

/// The container as the agent lists it. What the daemon does not tell is
/// empty, but for the name and the state, which are `unknown`.
pub open spec fn info_of(summary: ContainerSummary) -> InfoView {
    InfoView {
        id: text_or(summary.id, Seq::empty()),
        name: listed_name(summary.names),
        image: text_or(summary.image, Seq::empty()),
        status: text_or(summary.status, Seq::empty()),
        state: text_or(summary.state, "unknown"@),
        ports: listed_ports(summary.ports),
    }
}

/// What a failed action on a container is reported as: the words for the
/// action, a colon and the daemon's error.
pub open spec fn reported_failure(words: Seq<char>, outcome: Result<(), String>) -> Result<
    (),
    Seq<char>,
> {
    match outcome {
        Ok(_) => Ok(()),
        Err(error) => Err(words + ": "@ + error@),
    }
}

/// A result with a text for an error, as plain values.
pub open spec fn failure_view(result: Result<(), String>) -> Result<(), Seq<char>> {
    match result {
        Ok(_) => Ok(()),
        Err(error) => Err(error@),
    }
}

/// A text, or `fallback` where it is missing.
fn clone_or(value: &Option<String>, fallback: &str) -> (text: String)
    ensures
        text@ == text_or(*value, fallback@),
{
    match value {
        Some(text) => text.clone(),
        None => fallback.to_owned(),
    }
}

/// The failure of an action under the words for it.
fn with_words(words: &str, outcome: Result<(), String>) -> (result: Result<(), String>)
    ensures
        failure_view(result) == reported_failure(words@, outcome),
{
    match outcome {
        Ok(_) => Ok(()),
        Err(error) => {
            let mut text = words.to_owned();
            text.append(": ");
            text.append(error.as_str());
            Err(text)
        },
    }
}

impl ContainerInfo {
    /// The container as the agent lists it.
    pub fn from_summary(summary: &ContainerSummary) -> (info: Self)
        ensures
            info@ == info_of(*summary),
    {
        let name = match &summary.names {
            Some(all) => if all.len() > 0 {
                strip_leading(all[0].as_str(), '/').to_owned()
            } else {
                "unknown".to_owned()
            },
            None => "unknown".to_owned(),
        };
        let ports = match &summary.ports {
            Some(all) => {
                let mut parts: Vec<String> = Vec::new();
                let mut i: usize = 0;
                let ghost wanted = all@.map_values(|p: PortMapping| listed_port(p));
                assert(parts.deep_view() =~= wanted.take(0));
                while i < all.len()
                    invariant
                        i <= all.len(),
                        wanted == all@.map_values(|p: PortMapping| listed_port(p)),
                        parts.deep_view() == wanted.take(i as int),
                    decreases all.len() - i,
                {
                    let ghost before = parts.deep_view();
                    let text = all[i].listed();
                    parts.push(text);
                    assert(parts.deep_view() =~= before.push(text@));
                    assert(wanted.take(i + 1) =~= wanted.take(i as int).push(wanted[i as int]));
                    i += 1;
                }
                assert(wanted.take(all.len() as int) =~= wanted);
                join(&parts, ", ")
            },
            None => String::new(),
        };
        proof {
            reveal_strlit("");
            assert(""@ =~= Seq::<char>::empty());
        }
        ContainerInfo {
            id: clone_or(&summary.id, ""),
            name,
            image: clone_or(&summary.image, ""),
            status: clone_or(&summary.status, ""),
            state: clone_or(&summary.state, "unknown"),
            ports,
        }
    }
}

/// The agent's dealings with the Docker daemon, as far as they are rules
/// and not calls.
pub struct DockerService;

impl DockerService {
    /// The containers as the agent lists them, in the daemon's order.
    pub fn list_containers(summaries: &Vec<ContainerSummary>) -> (infos: Vec<ContainerInfo>)
        ensures
            infos.len() == summaries.len(),
            forall|i: int| 0 <= i < infos.len() ==> (#[trigger] infos[i])@ == info_of(summaries[i]),
    {
        let mut infos: Vec<ContainerInfo> = Vec::new();
        let mut i: usize = 0;
        while i < summaries.len()
            invariant
                i <= summaries.len(),
                infos.len() == i,
                forall|j: int| 0 <= j < i ==> (#[trigger] infos[j])@ == info_of(summaries[j]),
            decreases summaries.len() - i,
        {
            infos.push(ContainerInfo::from_summary(&summaries[i]));
            i += 1;
        }
        infos
    }

    /// What the start of a container comes to.
    pub fn start_container(outcome: Result<(), String>) -> (result: Result<(), String>)
        ensures
            failure_view(result) == reported_failure("Failed to start container"@, outcome),
    {
        with_words("Failed to start container", outcome)
    }

    /// What the stop of a container comes to.
    pub fn stop_container(outcome: Result<(), String>) -> (result: Result<(), String>)
        ensures
            failure_view(result) == reported_failure("Failed to stop container"@, outcome),
    {
        with_words("Failed to stop container", outcome)
    }

    /// What the restart of a container comes to.
    pub fn restart_container(outcome: Result<(), String>) -> (result: Result<(), String>)
        ensures
            failure_view(result) == reported_failure("Failed to restart container"@, outcome),
    {
        with_words("Failed to restart container", outcome)
    }

    /// The settings of the log stream of a container: both outputs,
    /// followed, from `since` on and `tail` lines back.
    pub fn logs_stream(since: Option<i64>, tail: Option<String>) -> (settings: LogSettings)
        ensures
            settings.follow,
            settings.stdout,
            settings.stderr,
            settings.tail@ == text_or(tail, "100"@),
            settings.since == match since {
                Some(moment) => moment as i32,
                None => 0i32,
            },
    {
        LogSettings::following(since, tail)
    }

    /// What a listener to a log stream is shown for an item: a line as it
    /// is, a failure as `Error: ` and its words.
    pub fn stream_data(item: Result<String, String>) -> (data: String)
        ensures
            data@ == match item {
                Ok(line) => line@,
                Err(words) => "Error: "@ + words@,
            },
    {
        match item {
            Ok(line) => line,
            Err(words) => {
                let mut data = "Error: ".to_owned();
                data.append(words.as_str());
                data
            },
        }
    }

    /// What an item of a log stream is passed on as: a line as it is, a
    /// failure as `Log error: ` and the daemon's error.
    pub fn log_line(item: Result<String, String>) -> (line: Result<String, String>)
        ensures
            match (item, line) {
                (Ok(text), Ok(out)) => out@ == text@,
                (Err(error), Err(out)) => out@ == "Log error: "@ + error@,
                _ => false,
            },
    {
        match item {
            Ok(text) => Ok(text),
            Err(error) => {
                let mut out = "Log error: ".to_owned();
                out.append(error.as_str());
                Err(out)
            },
        }
    }
}

impl ContainerAction {
    /// The action that a request names; `None` for a name that is none.
    pub fn parse(name: &str) -> (action: Option<Self>)
        ensures
            action == action_of(name@),
    {
        if same(name, "start") {
            Some(ContainerAction::Start)
        } else if same(name, "stop") {
            Some(ContainerAction::Stop)
        } else if same(name, "restart") {
            Some(ContainerAction::Restart)
        } else {
            None
        }
    }
}

/// How many lines a stream goes back for a request, so that no request can
/// ask for more than the limit.
pub fn safe_tail(requested: Option<&str>) -> (tail: String)
    ensures
        tail@ == tail_of(str_of(requested)),
{
    match requested {
        Some(text) => if same(text, "all") {
            to_decimal(TAIL_LIMIT as u64)
        } else {
            match parse_u32(text) {
                Some(lines) => if lines > TAIL_LIMIT {
                    to_decimal(TAIL_LIMIT as u64)
                } else {
                    to_decimal(lines as u64)
                },
                None => "100".to_owned(),
            }
        },
        None => "100".to_owned(),
    }
}

impl LogSettings {
    /// The settings of a stream that follows both outputs of a container.
    /// Without a wish it goes back a hundred lines, and to the start. A
    /// moment that does not fit 32 bits is cut to its low 32 bits.
    pub fn following(since: Option<i64>, tail: Option<String>) -> (settings: Self)
        ensures
            settings.follow,
            settings.stdout,
            settings.stderr,
            settings.tail@ == text_or(tail, "100"@),
            settings.since == match since {
                Some(moment) => moment as i32,
                None => 0i32,
            },
    {
        let moment: i64 = match since {
            Some(m) => m,
            None => 0,
        };
        LogSettings {
            follow: true,
            stdout: true,
            stderr: true,
            tail: match tail {
                Some(text) => text,
                None => "100".to_owned(),
            },
            since: #[verifier::truncate]
            (moment as i32),
        }
    }
}

} // verus!
