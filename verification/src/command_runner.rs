//! Running one command: the words handed to the operating system, and the
//! normalized result that comes back.

use vstd::prelude::*;
use crate::error::ErrorKind;
use crate::execution::{execute_verdict, execute_verdict_of, Ending};
use crate::platform::Platform;
use crate::text::{contains_text, decimal, occurs_in, render_decimal, texts};

verus! {

/// A program and its arguments, each argument one token.
#[derive(Debug, Clone)]
pub struct Invocation {
    pub program: String,
    pub args: Vec<String>,
}

/// An `Invocation` as plain text.
pub struct InvocationView {
    pub program: Seq<char>,
    pub args: Seq<Seq<char>>,
}

impl View for Invocation {
    type V = InvocationView;

    open spec fn view(&self) -> InvocationView {
        InvocationView { program: self.program@, args: texts(self.args@) }
    }
}

/// Output from a command execution.
#[derive(Debug, Clone)]
pub struct CommandOutput {
    /// Exit status code; `-1` where the platform reports none.
    pub status_code: i32,
    /// Standard output.
    pub stdout: String,
    /// Standard error.
    pub stderr: String,
    /// Whether the process ran to its end and reported success.
    pub success: bool,
}

/// The texts that a list of string slices holds, in order.
pub open spec fn slice_texts(list: Seq<&str>) -> Seq<Seq<char>> {
    Seq::new(list.len(), |i: int| list[i]@)
}

/// How a program is run with its arguments: by itself where the platform
/// takes a list of arguments, through the interpreter on Windows.
pub open spec fn command_of(
    platform: Platform,
    program: Seq<char>,
    args: Seq<Seq<char>>,
) -> InvocationView {
    match platform {
        Platform::Windows => InvocationView { program: "cmd"@, args: seq!["/C"@, program] + args },
        _ => InvocationView { program, args },
    }
}

/// The command that requests forced termination of a process.
pub open spec fn kill_command_of(platform: Platform, pid: u32) -> InvocationView {
    match platform {
        Platform::Windows => InvocationView {
            program: "taskkill"@,
            args: seq!["/PID"@, decimal(pid as nat), "/F"@],
        },
        _ => InvocationView { program: "kill"@, args: seq!["-9"@, decimal(pid as nat)] },
    }
}

/// The entry of a process in the process file system of Linux.
pub open spec fn proc_entry_of(pid: u32) -> Seq<char> {
    "/proc/"@ + decimal(pid as nat)
}

/// A way to find out whether a process is alive. A probe changes nothing.
#[derive(Debug, Clone)]
pub enum Probe {
    /// The process is alive if this path exists.
    PathExists { path: String },
    /// The process is alive if this command reports success.
    CommandSucceeds { invocation: Invocation },
    /// The process is alive if the output of this command holds `needle`.
    OutputMentions { invocation: Invocation, needle: String },
}

/// A `Probe` as plain text.
pub enum ProbeView {
    PathExists { path: Seq<char> },
    CommandSucceeds { invocation: InvocationView },
    OutputMentions { invocation: InvocationView, needle: Seq<char> },
}

impl View for Probe {
    type V = ProbeView;

    open spec fn view(&self) -> ProbeView {
        match *self {
            Probe::PathExists { path } => ProbeView::PathExists { path: path@ },
            Probe::CommandSucceeds { invocation } => ProbeView::CommandSucceeds {
                invocation: invocation@,
            },
            Probe::OutputMentions { invocation, needle } => ProbeView::OutputMentions {
                invocation: invocation@,
                needle: needle@,
            },
        }
    }
}

/// How each platform finds out whether a process is alive.
pub open spec fn probe_of(platform: Platform, pid: u32) -> ProbeView {
    match platform {
        Platform::Linux => ProbeView::PathExists { path: proc_entry_of(pid) },
        Platform::Windows => ProbeView::OutputMentions {
            invocation: InvocationView { program: "tasklist"@, args: Seq::empty() },
            needle: decimal(pid as nat),
        },
        Platform::MacOS => ProbeView::CommandSucceeds {
            invocation: InvocationView { program: "ps"@, args: seq!["-p"@, decimal(pid as nat)] },
        },
    }
}

/// What the driver saw when it carried out a probe.
#[derive(Debug, Clone)]
pub enum Observation {
    /// Whether the path exists.
    PathSeen { exists: bool },
    /// How the command ended.
    CommandRan(Ending),
}

/// What an observation says about a probe: alive, not alive, or nothing,
/// where the command did not run to its end or the observation is of
/// another kind than the probe.
pub open spec fn probe_verdict_of(probe: Probe, observation: Observation) -> Result<
    bool,
    ErrorKind,
> {
    match (probe, observation) {
        (Probe::PathExists { path }, Observation::PathSeen { exists }) => Ok(exists),
        (
            Probe::CommandSucceeds { invocation },
            Observation::CommandRan(Ending::Exited { code, status, stdout, stderr }),
        ) => Ok(code == Some(0i32)),
        (
            Probe::OutputMentions { invocation, needle },
            Observation::CommandRan(Ending::Exited { code, status, stdout, stderr }),
        ) => Ok(occurs_in(needle@, stdout@)),
        _ => Err(ErrorKind::ProbeInconclusive),
    }
}

impl Probe {
    /// Reads an observation. Fails with `ProbeInconclusive`, and with
    /// nothing else, where the observation does not answer the probe.
    pub fn verdict(&self, observation: &Observation) -> (r: Result<bool, ErrorKind>)
        ensures
            r == probe_verdict_of(*self, *observation),
    {
        match (self, observation) {
            (Probe::PathExists { path: _ }, Observation::PathSeen { exists }) => Ok(*exists),
            (
                Probe::CommandSucceeds { invocation: _ },
                Observation::CommandRan(Ending::Exited { code, status: _, stdout: _, stderr: _ }),
            ) => match code {
                Some(0) => Ok(true),
                _ => Ok(false),
            },
            (
                Probe::OutputMentions { invocation: _, needle },
                Observation::CommandRan(Ending::Exited { code: _, status: _, stdout, stderr: _ }),
            ) => Ok(contains_text(stdout.as_str(), needle.as_str())),
            _ => Err(ErrorKind::ProbeInconclusive),
        }
    }

    /// Whether the process counts as running: only where the observation
    /// says so. An inconclusive probe counts as not running.
    pub fn is_running(&self, observation: &Observation) -> (running: bool)
        ensures
            running == (probe_verdict_of(*self, *observation) == Ok::<bool, ErrorKind>(true)),
    {
        match self.verdict(observation) {
            Ok(alive) => alive,
            Err(_) => false,
        }
    }
}

/// What the end of a termination command means: success where the command
/// reported it, `KillFailed` where it ran and reported failure or could not
/// be run, and `Timeout` where it outlived its time limit.
pub open spec fn kill_verdict_of(ending: Ending, timeout_secs: u64) -> Result<(), ErrorKind> {
    match execute_verdict_of(ending, timeout_secs) {
        Ok(()) => Ok(()),
        Err(ErrorKind::NonZeroExit { code, status }) => Err(
            ErrorKind::KillFailed { reason: status },
        ),
        Err(ErrorKind::SpawnFailed { reason }) => Err(ErrorKind::KillFailed { reason }),
        Err(other) => Err(other),
    }
}

/// Turns the end of a termination command into the result of the request.
pub fn kill_verdict(ending: Ending, timeout_secs: u64) -> (r: Result<(), ErrorKind>)
    ensures
        r == kill_verdict_of(ending, timeout_secs),
{
    match execute_verdict(ending, timeout_secs) {
        Ok(()) => Ok(()),
        Err(ErrorKind::NonZeroExit { code: _, status }) => Err(
            ErrorKind::KillFailed { reason: status },
        ),
        Err(ErrorKind::SpawnFailed { reason }) => Err(ErrorKind::KillFailed { reason }),
        Err(other) => Err(other),
    }
}

/// Copies a list of string slices into owned strings.
fn owned_texts(list: &[&str]) -> (owned: Vec<String>)
    ensures
        texts(owned@) == slice_texts(list@),
{
    let mut owned: Vec<String> = Vec::new();
    let mut i: usize = 0;
    while i < list.len()
        invariant
            0 <= i <= list.len(),
            owned@.len() == i,
            forall|k: int| 0 <= k < i ==> owned@[k]@ == list@[k]@,
        decreases list.len() - i,
    {
        owned.push(String::from_str(list[i]));
        i += 1;
    }
    assert(texts(owned@) =~= slice_texts(list@));
    owned
}

impl Platform {
    /// The words that run `program` with `args` on this platform. Nothing
    /// is tested here: a program that does not exist, or an empty name, is
    /// refused by the operating system when the process is spawned.
    pub fn command(self, program: &str, args: &[&str]) -> (invocation: Invocation)
        ensures
            invocation@ == command_of(self, program@, slice_texts(args@)),
    {
        let mut rest = owned_texts(args);
        match self {
            Platform::Windows => {
                let mut words: Vec<String> = Vec::new();
                words.push(String::from_str("/C"));
                words.push(String::from_str(program));
                let ghost head = words@;
                let ghost tail = rest@;
                words.append(&mut rest);
                assert(words@ == head + tail);
                assert(texts(words@) =~= seq!["/C"@, program@] + slice_texts(args@));
                Invocation { program: String::from_str("cmd"), args: words }
            },
            _ => Invocation { program: String::from_str(program), args: rest },
        }
    }

    /// The words that request forced termination of process `pid`.
    pub fn kill_command(self, pid: u32) -> (invocation: Invocation)
        ensures
            invocation@ == kill_command_of(self, pid),
    {
        let number = render_decimal(pid as u64);
        let mut words: Vec<String> = Vec::new();
        match self {
            Platform::Windows => {
                words.push(String::from_str("/PID"));
                words.push(number);
                words.push(String::from_str("/F"));
                assert(texts(words@) =~= seq!["/PID"@, decimal(pid as nat), "/F"@]);
                Invocation { program: String::from_str("taskkill"), args: words }
            },
            _ => {
                words.push(String::from_str("-9"));
                words.push(number);
                assert(texts(words@) =~= seq!["-9"@, decimal(pid as nat)]);
                Invocation { program: String::from_str("kill"), args: words }
            },
        }
    }

    /// The probe that tells whether process `pid` is alive.
    pub fn liveness_probe(self, pid: u32) -> (probe: Probe)
        ensures
            probe@ == probe_of(self, pid),
    {
        match self {
            Platform::Linux => Probe::PathExists { path: proc_entry(pid) },
            Platform::Windows => {
                let none: Vec<String> = Vec::new();
                assert(texts(none@) =~= Seq::empty());
                Probe::OutputMentions {
                    invocation: Invocation { program: String::from_str("tasklist"), args: none },
                    needle: render_decimal(pid as u64),
                }
            },
            Platform::MacOS => {
                let mut words: Vec<String> = Vec::new();
                words.push(String::from_str("-p"));
                words.push(render_decimal(pid as u64));
                assert(texts(words@) =~= seq!["-p"@, decimal(pid as nat)]);
                Probe::CommandSucceeds {
                    invocation: Invocation { program: String::from_str("ps"), args: words },
                }
            },
        }
    }
}

/// The path of the entry of process `pid` in the process file system.
pub fn proc_entry(pid: u32) -> (path: String)
    ensures
        path@ == proc_entry_of(pid),
{
    let mut path = String::from_str("/proc/");
    let number = render_decimal(pid as u64);
    path.append(number.as_str());
    path
}

/// What running commands asks of a platform: the words for a command, the
/// words for a forced termination, and the probe for liveness. One runner
/// serves one platform; the program picks its runner once.
pub trait OSCommandRunner {
    /// The platform this runner serves.
    spec fn serves(&self) -> Platform;

    /// The platform this runner serves.
    fn platform(&self) -> (platform: Platform)
        ensures
            platform == self.serves(),
    ;

    /// The words that run `program` with `args`.
    fn command(&self, program: &str, args: &[&str]) -> (invocation: Invocation)
        ensures
            invocation@ == command_of(self.serves(), program@, slice_texts(args@)),
    ;

    /// The words that request forced termination of process `pid`.
    fn kill_command(&self, pid: u32) -> (invocation: Invocation)
        ensures
            invocation@ == kill_command_of(self.serves(), pid),
    ;

    /// The probe that tells whether process `pid` is alive.
    fn liveness_probe(&self, pid: u32) -> (probe: Probe)
        ensures
            probe@ == probe_of(self.serves(), pid),
    ;
}

/// Linux-specific command runner.
#[derive(Clone, Copy, Debug)]
pub struct LinuxCommandRunner;

/// Windows-specific command runner.
#[derive(Clone, Copy, Debug)]
pub struct WindowsCommandRunner;

/// macOS-specific command runner.
#[derive(Clone, Copy, Debug)]
pub struct MacOSCommandRunner;

impl OSCommandRunner for LinuxCommandRunner {
    open spec fn serves(&self) -> Platform {
        Platform::Linux
    }

    fn platform(&self) -> (platform: Platform) {
        Platform::Linux
    }

    fn command(&self, program: &str, args: &[&str]) -> (invocation: Invocation) {
        Platform::Linux.command(program, args)
    }

    fn kill_command(&self, pid: u32) -> (invocation: Invocation) {
        Platform::Linux.kill_command(pid)
    }

    fn liveness_probe(&self, pid: u32) -> (probe: Probe) {
        Platform::Linux.liveness_probe(pid)
    }
}

impl OSCommandRunner for WindowsCommandRunner {
    open spec fn serves(&self) -> Platform {
        Platform::Windows
    }

    fn platform(&self) -> (platform: Platform) {
        Platform::Windows
    }

    fn command(&self, program: &str, args: &[&str]) -> (invocation: Invocation) {
        Platform::Windows.command(program, args)
    }

    fn kill_command(&self, pid: u32) -> (invocation: Invocation) {
        Platform::Windows.kill_command(pid)
    }

    fn liveness_probe(&self, pid: u32) -> (probe: Probe) {
        Platform::Windows.liveness_probe(pid)
    }
}

impl OSCommandRunner for MacOSCommandRunner {
    open spec fn serves(&self) -> Platform {
        Platform::MacOS
    }

    fn platform(&self) -> (platform: Platform) {
        Platform::MacOS
    }

    fn command(&self, program: &str, args: &[&str]) -> (invocation: Invocation) {
        Platform::MacOS.command(program, args)
    }

    fn kill_command(&self, pid: u32) -> (invocation: Invocation) {
        Platform::MacOS.kill_command(pid)
    }

    fn liveness_probe(&self, pid: u32) -> (probe: Probe) {
        Platform::MacOS.liveness_probe(pid)
    }
}

/// `std::path::Path::exists`: whether the path points at something that
/// exists. The answer depends on the file system at the moment of the call,
/// so nothing is claimed of it.
#[verifier::external_body]
fn path_exists(path: &str) -> bool {
    std::path::Path::new(path).exists()
}

impl LinuxCommandRunner {
    /// Check if a process is running by PID.
    ///
    /// Linux answers the probe from its process file system, so the runner
    /// carries it out itself: it looks whether the entry of the process
    /// exists. What it finds depends on the machine at that moment; a look
    /// that fails counts as not running.
    pub fn is_process_running(&self, pid: u32) -> bool {
        let probe = self.liveness_probe(pid);
        match &probe {
            Probe::PathExists { path } => {
                let exists = path_exists(path.as_str());
                probe.is_running(&Observation::PathSeen { exists })
            },
            _ => false,
        }
    }
}

} // verus!
