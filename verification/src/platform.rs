//! The three desktop platforms and what differs between them: the command
//! interpreter, the verb that opens a web address, and the quoting mark.

use vstd::prelude::*;

verus! {

/// The operating system a launch is assembled for. A build serves one
/// platform; the program around the library picks it once and hands it in.
#[derive(Clone, Copy, Debug, PartialEq, Eq, Structural)]
pub enum Platform {
    Linux,
    Windows,
    MacOS,
}

impl Platform {
    /// The mark that wraps every target and argument on a command line.
    pub open spec fn quote_mark(self) -> char {
        match self {
            Platform::Windows => '"',
            _ => '\'',
        }
    }

    /// The command interpreter that runs an assembled line.
    pub open spec fn shell_text(self) -> Seq<char> {
        match self {
            Platform::Windows => "cmd"@,
            _ => "sh"@,
        }
    }

    /// The flag that makes the interpreter run the line that follows it.
    pub open spec fn shell_flag_text(self) -> Seq<char> {
        match self {
            Platform::Windows => "/C"@,
            _ => "-c"@,
        }
    }

    /// The verb that hands a web address to the desktop.
    pub open spec fn opener_text(self) -> Seq<char> {
        match self {
            Platform::Linux => "xdg-open"@,
            Platform::Windows => "start \"\""@,
            Platform::MacOS => "open"@,
        }
    }

    pub fn quote(self) -> (mark: char)
        ensures
            mark == self.quote_mark(),
    {
        match self {
            Platform::Windows => '"',
            _ => '\'',
        }
    }

    pub fn shell(self) -> (name: &'static str)
        ensures
            name@ == self.shell_text(),
    {
        match self {
            Platform::Windows => "cmd",
            _ => "sh",
        }
    }

    pub fn shell_flag(self) -> (flag: &'static str)
        ensures
            flag@ == self.shell_flag_text(),
    {
        match self {
            Platform::Windows => "/C",
            _ => "-c",
        }
    }

    pub fn opener(self) -> (verb: &'static str)
        ensures
            verb@ == self.opener_text(),
    {
        match self {
            Platform::Linux => "xdg-open",
            Platform::Windows => "start \"\"",
            Platform::MacOS => "open",
        }
    }
}

/// What a desktop integration offers on one platform. The library ships no
/// implementation: each front end brings its own.
pub trait PlatformManager {
    fn open_url(&self, url: &str) -> Result<(), String>;

    fn execute_binary(&self, path: &str) -> Result<(), String>;

    fn enable_autostart(&self) -> Result<(), String>;
}

} // verus!
