//! How the supervised server is launched: which program, with which
//! arguments, from which directory. The choice depends only on the
//! deployment mode, which is fixed when the application is built.

use vstd::prelude::*;
use vstd::string::StringExecFns;

verus! {

/// The two recognised deployment modes.
#[derive(Clone, Copy, Debug, PartialEq, Eq, Structural)]
pub enum Mode {
    /// The server's script is run by an interpreter from the project root.
    Development,
    /// The server is a standalone executable shipped with the application.
    Production,
}

/// An invocation of the server process, ready to be handed to the
/// operating system.
#[derive(Debug, PartialEq, Eq)]
pub struct Launch {
    /// The executable to run.
    pub program: String,
    /// The arguments handed to it, in order.
    pub args: Vec<String>,
    /// The directory to run it in, or `None` for the caller's own.
    pub working_dir: Option<String>,
}

/// The mathematical content of a [`Launch`].
pub struct LaunchView {
    pub program: Seq<char>,
    pub args: Seq<Seq<char>>,
    pub working_dir: Option<Seq<char>>,
}

impl View for Launch {
    type V = LaunchView;

    open spec fn view(&self) -> LaunchView {
        LaunchView {
            program: self.program@,
            args: self.args.deep_view(),
            working_dir: match self.working_dir {
                Some(dir) => Some(dir@),
                None => None,
            },
        }
    }
}

/// The invocation that belongs to a deployment mode.
///
/// In development the interpreter `python3` runs `app.py` from the project
/// root, two levels above the directory the application is started in. In
/// production the bundled executable is run as it is, with no argument and
/// no change of directory.
pub open spec fn launch_for(mode: Mode) -> LaunchView {
    match mode {
        Mode::Development => LaunchView {
            program: "python3"@,
            args: seq!["app.py"@],
            working_dir: Some("../.."@),
        },
        Mode::Production => LaunchView {
            program: "./binaries/python-server"@,
            args: Seq::empty(),
            working_dir: None,
        },
    }
}

impl Launch {
    /// Builds the invocation for `mode`.
    pub fn for_mode(mode: Mode) -> (launch: Launch)
        ensures
            launch@ == launch_for(mode),
    {
        match mode {
            Mode::Development => {
                let mut args: Vec<String> = Vec::new();
                args.push(String::from_str("app.py"));
                let launch = Launch {
                    program: String::from_str("python3"),
                    args,
                    working_dir: Some(String::from_str("../..")),
                };
                assert(launch.args.deep_view() =~= seq!["app.py"@]);
                launch
            },
            Mode::Production => {
                let launch = Launch {
                    program: String::from_str("./binaries/python-server"),
                    args: Vec::new(),
                    working_dir: None,
                };
                assert(launch.args.deep_view() =~= Seq::<Seq<char>>::empty());
                launch
            },
        }
    }
}

} // verus!
