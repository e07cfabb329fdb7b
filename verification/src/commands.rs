//! What the desktop front end asks for: listing, adding, removing and
//! starting launchers. The front end reads and writes the configuration and
//! runs the process; what is decided in between is decided here.

use vstd::prelude::*;
use crate::config::{has_no_id, is_first_with_id, Config};
use crate::config_manager::ConfigManager;
use crate::error::ErrorKind;
use crate::environment::{bindings, last_writes};
use crate::launcher::{
    all_quotable, command_line, describe_failure, failure_text, first_unquotable, launch_words,
    shell_invocation_of, LaunchPlan, LaunchType, Launcher,
};
use crate::platform::Platform;
use crate::text::same_text;

verus! {

/// The kind of target that a front end names with `name`: a web address
/// for `web`, a program for anything else.
pub open spec fn launch_type_named(name: Seq<char>) -> LaunchType {
    if name == "web"@ {
        LaunchType::Web
    } else {
        LaunchType::App
    }
}

impl LaunchType {
    /// The name of this kind of target.
    pub open spec fn name_text(self) -> Seq<char> {
        match self {
            LaunchType::Web => "web"@,
            LaunchType::App => "app"@,
        }
    }

    /// The name of this kind of target, as front ends write it.
    pub fn name(self) -> (name: &'static str)
        ensures
            name@ == self.name_text(),
    {
        match self {
            LaunchType::Web => "web",
            LaunchType::App => "app",
        }
    }

    /// The kind of target that `name` stands for.
    pub fn from_name(name: &str) -> (launch_type: LaunchType)
        ensures
            launch_type == launch_type_named(name@),
    {
        if same_text(name, "web") {
            LaunchType::Web
        } else {
            LaunchType::App
        }
    }
}

/// Reading the name of a kind gives the kind back.
pub proof fn lemma_launch_type_name_round_trip(launch_type: LaunchType)
    ensures
        launch_type_named(launch_type.name_text()) == launch_type,
{
    reveal_strlit("web");
    reveal_strlit("app");
    assert("app"@[0] != "web"@[0]);
}

/// One launcher as a front end lists it.
#[derive(Debug, Clone)]
pub struct LauncherSummary {
    pub id: String,
    pub name: String,
    pub launch_type: &'static str,
    pub target: String,
    pub icon: Option<String>,
}

/// Whether `summary` lists `launcher`.
pub open spec fn summarizes(summary: LauncherSummary, launcher: Launcher) -> bool {
    &&& summary.id == launcher.id
    &&& summary.name == launcher.name
    &&& summary.launch_type@ == launcher.launch_type.name_text()
    &&& summary.target == launcher.target
    &&& summary.icon == launcher.icon
}

/// Lists one launcher.
pub fn summarize(launcher: &Launcher) -> (summary: LauncherSummary)
    ensures
        summarizes(summary, *launcher),
{
    let icon = match &launcher.icon {
        Some(path) => Some(path.clone()),
        None => None,
    };
    LauncherSummary {
        id: launcher.id.clone(),
        name: launcher.name.clone(),
        launch_type: launcher.launch_type.name(),
        target: launcher.target.clone(),
        icon,
    }
}

/// Lists all launchers of a configuration, in order.
pub fn get_launchers(config: &Config) -> (list: Vec<LauncherSummary>)
    ensures
        list@.len() == config.launchers@.len(),
        forall|i: int|
            0 <= i < list@.len() ==> summarizes(#[trigger] list@[i], config.launchers@[i]),
{
    let mut list: Vec<LauncherSummary> = Vec::new();
    let mut i: usize = 0;
    while i < config.launchers.len()
        invariant
            0 <= i <= config.launchers.len(),
            list@.len() == i,
            forall|k: int| 0 <= k < i ==> summarizes(#[trigger] list@[k], config.launchers@[k]),
        decreases config.launchers.len() - i,
    {
        list.push(summarize(&config.launchers[i]));
        i += 1;
    }
    list
}

/// Adds a launcher that a front end describes: without options, and with
/// the kind that `launch_type` names.
pub fn add_launcher_cmd(
    manager: &mut ConfigManager,
    id: String,
    name: String,
    launch_type: String,
    target: String,
    icon: Option<String>,
)
    ensures
        final(manager).path() == old(manager).path(),
        final(manager).settings().launchers@ == old(manager).settings().launchers@.push(
            Launcher {
                id,
                name,
                launch_type: launch_type_named(launch_type@),
                target,
                icon,
                options: None,
            },
        ),
        final(manager).settings().version == old(manager).settings().version,
        final(manager).settings().theme == old(manager).settings().theme,
        final(manager).settings().autostart == old(manager).settings().autostart,
{
    let kind = LaunchType::from_name(launch_type.as_str());
    let mut launcher = Launcher::new(id, name, kind, target);
    launcher.icon = icon;
    manager.add_launcher(launcher);
}

/// What a front end is told where no launcher has the identifier it names.
pub open spec fn not_found_text() -> Seq<char> {
    "Launcher not found"@
}

/// The text of `executed_message`.
pub open spec fn executed_text(name: Seq<char>) -> Seq<char> {
    "Launcher '"@ + name + "' executed"@
}

/// What a front end is told after a launch that succeeded.
pub fn executed_message(name: &str) -> (line: String)
    ensures
        line@ == executed_text(name@),
{
    let mut line = String::from_str("Launcher '");
    line.append(name);
    line.append("' executed");
    line
}

/// Finds the launcher a front end wants started and plans its launch.
///
/// Fails with `Launcher not found` where no launcher has the identifier,
/// and with the message of the error where the first launcher that has it
/// cannot be put on a command line.
pub fn execute_launcher_cmd<'a>(config: &'a Config, id: &str, platform: Platform) -> (r: Result<
    (&'a Launcher, LaunchPlan),
    String,
>)
    ensures
        match r {
            Ok((launcher, plan)) => {
                &&& exists|index: int|
                    #[trigger] is_first_with_id(config.launchers@, id@, index)
                        && config.launchers@[index] == *launcher
                &&& all_quotable(
                    platform.quote_mark(),
                    launch_words(launcher.target@, launcher.argument_texts()),
                )
                &&& plan.invocation@ == shell_invocation_of(
                    platform,
                    command_line(
                        platform,
                        launcher.launch_type,
                        launcher.target@,
                        launcher.argument_texts(),
                    ),
                )
                &&& bindings(plan.env@) == last_writes(launcher.overrides())
                &&& plan.timeout_secs == launcher.timeout()
            },
            Err(reason) => {
                ||| has_no_id(config.launchers@, id@) && reason@ == not_found_text()
                ||| exists|index: int, position: int|
                    {
                        &&& #[trigger] is_first_with_id(config.launchers@, id@, index)
                        &&& #[trigger] first_unquotable(
                            platform.quote_mark(),
                            launch_words(
                                config.launchers@[index].target@,
                                config.launchers@[index].argument_texts(),
                            ),
                            position,
                        )
                        &&& 0 <= position <= usize::MAX
                        &&& reason@ == (ErrorKind::UnquotableArgument {
                            position: position as usize,
                        }).message_text()
                    }
            },
        },
{
    let launcher = match config.find_launcher(id) {
        Some(launcher) => launcher,
        None => {
            return Err(String::from_str("Launcher not found"));
        },
    };
    match launcher.plan(platform) {
        Ok(plan) => Ok((launcher, plan)),
        Err(error) => {
            let reason = error.message();
            proof {
                let index = choose|index: int|
                    #[trigger] is_first_with_id(config.launchers@, id@, index)
                        && config.launchers@[index] == *launcher;
                let position = error->UnquotableArgument_position as int;
                assert(first_unquotable(
                    platform.quote_mark(),
                    launch_words(
                        config.launchers@[index].target@,
                        config.launchers@[index].argument_texts(),
                    ),
                    position,
                ));
            }
            Err(reason)
        },
    }
}

/// What a front end is told about a launch that was carried out: the
/// message of success, or the error with what was attempted.
pub fn launch_report(launcher: &Launcher, platform: Platform, outcome: Result<(), ErrorKind>) -> (r:
    Result<String, String>)
    ensures
        match (outcome, r) {
            (Ok(()), Ok(line)) => line@ == executed_text(launcher.name@),
            (Err(error), Err(reason)) => reason@ == failure_text(
                platform,
                launcher.launch_type,
                launcher.target@,
                error,
            ),
            _ => false,
        },
{
    match outcome {
        Ok(()) => Ok(executed_message(launcher.name.as_str())),
        Err(error) => Err(
            describe_failure(platform, launcher.launch_type, launcher.target.as_str(), &error),
        ),
    }
}

} // verus!
