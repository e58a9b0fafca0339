//! Opening a folder in the file manager of the system.
//!
//! Each supported system has one program that shows a folder when it is
//! started with the folder's path: `explorer` on Windows, `open` on macOS,
//! `xdg-open` on Linux. Which of them a build uses is fixed by the system it
//! was built for and settled once, as a [`Launcher`]; there is no search for
//! another program when that one is missing.
//!
//! The command runs in two steps around the one thing done outside, starting
//! the program. [`open_output_folder`] says what to start, and
//! [`report_launch`] turns what became of the start into the command's
//! result. The program is started and then left alone: nobody waits for it or
//! looks at how it ended, so the command succeeds as soon as the program has
//! been started, whether or not the path names a folder that exists.

use vstd::prelude::*;
use crate::failure::{failure_message, failure_text};

verus! {

/// The program that opens folders on one family of systems.
#[derive(Clone, Copy, Debug, PartialEq, Eq, Structural)]
pub enum Launcher {
    /// `explorer`, on Windows.
    WindowsLauncher,
    /// `open`, on macOS.
    MacLauncher,
    /// `xdg-open`, on Linux.
    LinuxLauncher,
}

/// The launcher of the system named `os`, if it has one. The names are those
/// by which a build names its target system.
pub open spec fn launcher_for(os: Seq<char>) -> Option<Launcher> {
    if os == "windows"@ {
        Some(Launcher::WindowsLauncher)
    } else if os == "macos"@ {
        Some(Launcher::MacLauncher)
    } else if os == "linux"@ {
        Some(Launcher::LinuxLauncher)
    } else {
        None
    }
}

/// Tells whether two texts are the same.
fn same_text(left: &str, right: &str) -> (same: bool)
    ensures
        same == (left@ == right@),
{
    left.to_owned() == right.to_owned()
}

impl Launcher {
    /// The name of the program, as it is looked up on the search path.
    pub open spec fn program_text(self) -> Seq<char> {
        match self {
            Launcher::WindowsLauncher => "explorer"@,
            Launcher::MacLauncher => "open"@,
            Launcher::LinuxLauncher => "xdg-open"@,
        }
    }

    /// Picks the launcher for the system named `os`: `"windows"`, `"macos"`
    /// or `"linux"`. Any other system has none.
    pub fn for_os(os: &str) -> (launcher: Option<Launcher>)
        ensures
            launcher == launcher_for(os@),
    {
        if same_text(os, "windows") {
            Some(Launcher::WindowsLauncher)
        } else if same_text(os, "macos") {
            Some(Launcher::MacLauncher)
        } else if same_text(os, "linux") {
            Some(Launcher::LinuxLauncher)
        } else {
            None
        }
    }

    /// The name of the program to start.
    pub fn program(&self) -> (name: &'static str)
        ensures
            name@ == self.program_text(),
    {
        match self {
            Launcher::WindowsLauncher => "explorer",
            Launcher::MacLauncher => "open",
            Launcher::LinuxLauncher => "xdg-open",
        }
    }
}

/// A program to start, with the one argument it is given.
#[derive(Clone, Debug, PartialEq, Eq)]
pub struct LaunchRequest {
    /// The program's name.
    pub program: String,
    /// Its only argument.
    pub argument: String,
}

/// A launch request as plain texts.
pub struct LaunchRequestView {
    pub program: Seq<char>,
    pub argument: Seq<char>,
}

impl View for LaunchRequest {
    type V = LaunchRequestView;

    open spec fn view(&self) -> LaunchRequestView {
        LaunchRequestView { program: self.program@, argument: self.argument@ }
    }
}

/// What is to be done next for a request to open a folder.
#[derive(Debug, PartialEq, Eq)]
pub enum OpenStep {
    /// Start this program, do not wait for it, and hand what became of the
    /// start to [`report_launch`].
    Launch(LaunchRequest),
    /// Nothing is left to do: this is the command's result.
    Finished(Result<(), String>),
}

/// A step as plain texts.
pub enum OpenStepView {
    Launch(LaunchRequestView),
    Finished(Result<(), Seq<char>>),
}

/// A result of the command with the message in it taken by its view.
pub open spec fn result_view(result: Result<(), String>) -> Result<(), Seq<char>> {
    match result {
        Ok(done) => Ok(done),
        Err(message) => Err(message@),
    }
}

impl View for OpenStep {
    type V = OpenStepView;

    open spec fn view(&self) -> OpenStepView {
        match self {
            OpenStep::Launch(request) => OpenStepView::Launch(request@),
            OpenStep::Finished(result) => OpenStepView::Finished(result_view(*result)),
        }
    }
}

/// The first step for opening `path`: with a launcher, start its program with
/// the path, as given, for its only argument; without one there is nothing to
/// start, and the command has succeeded.
pub open spec fn open_step(launcher: Option<Launcher>, path: Seq<char>) -> OpenStepView {
    match launcher {
        Some(chosen) => OpenStepView::Launch(
            LaunchRequestView { program: chosen.program_text(), argument: path },
        ),
        None => OpenStepView::Finished(Ok(())),
    }
}

/// The command's result once the start of the launcher has been attempted:
/// success if the program was started, else an error message made from the
/// description of what kept it from starting.
pub open spec fn launch_result(started: Result<(), Seq<char>>) -> Result<(), Seq<char>> {
    match started {
        Ok(done) => Ok(done),
        Err(description) => Err(failure_text(description)),
    }
}

/// Decides what to start in order to show the folder at `path`.
///
/// The path is not looked at: it is not checked for existence, not
/// normalised, and handed to the launcher as it came.
pub fn open_output_folder(launcher: Option<Launcher>, path: &str) -> (step: OpenStep)
    ensures
        step@ == open_step(launcher, path@),
{
    match launcher {
        Some(chosen) => OpenStep::Launch(
            LaunchRequest {
                program: String::from_str(chosen.program()),
                argument: String::from_str(path),
            },
        ),
        None => OpenStep::Finished(Ok(())),
    }
}

/// Turns what became of starting the launcher into the command's result.
///
/// `started` is `Ok` when the program was started and `Err` with the system's
/// description when it could not be, for want of the program or for any other
/// reason.
pub fn report_launch(started: Result<(), String>) -> (result: Result<(), String>)
    ensures
        result_view(result) == launch_result(result_view(started)),
        result is Ok <==> started is Ok,
        started matches Err(description) ==> result matches Err(message) && message@
            == failure_text(description@),
{
    match started {
        Ok(done) => Ok(done),
        Err(description) => Err(failure_message(description.as_str())),
    }
}

/// Whether the folder exists plays no part: for every path, one that names
/// nothing included, a build with a launcher asks for that launcher to be
/// started with exactly this path, and once the launcher has started the
/// command has succeeded.
pub proof fn lemma_open_succeeds_once_launched(launcher: Launcher, path: Seq<char>)
    ensures
        open_step(Some(launcher), path) == OpenStepView::Launch(
            LaunchRequestView { program: launcher.program_text(), argument: path },
        ),
        launch_result(Ok(())) == Ok::<(), Seq<char>>(()),
{
}

} // verus!
