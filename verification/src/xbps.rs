//! The command lines with which the package manager is run.

use crate::text::views;
use vstd::prelude::*;

verus! {

/// The program that installs and updates packages.
pub const XBPS_INSTALL: &'static str = "xbps-install";

/// The program that writes the answer to the package manager's question.
pub const ECHO: &'static str = "echo";

/// The answer that declines an update, as `echo` is to write it.
pub const DECLINE: &'static str = "\"n\"";

/// A program and its arguments.
#[derive(Debug, Clone, PartialEq, Eq)]
pub struct Invocation {
    pub program: String,
    pub args: Vec<String>,
}

/// An `Invocation` as a mathematical value.
pub struct InvocationView {
    pub program: Seq<char>,
    pub args: Seq<Seq<char>>,
}

impl View for Invocation {
    type V = InvocationView;

    open spec fn view(&self) -> InvocationView {
        InvocationView { program: self.program@, args: views(self.args@) }
    }
}

/// A command together with the program whose output it reads as its input.
#[derive(Debug, Clone, PartialEq, Eq)]
pub struct Piped {
    /// The command that is run and waited for.
    pub command: Invocation,
    /// The program whose standard output is the command's standard input.
    pub feeder: Invocation,
}

/// The arguments that update the packages under `root`, with `local_repo`
/// as a further repository where one is given.
pub open spec fn update_args(root: Seq<char>, local_repo: Option<Seq<char>>) -> Seq<Seq<char>> {
    match local_repo {
        Some(repo) => seq!["-u"@, "-r"@, root, "-R"@, repo],
        None => seq!["-u"@, "-r"@, root],
    }
}

/// The command that updates the packages under `root`, taking packages
/// from the repository at `local_repo` too where one is given.
pub fn xbps_update(root: &str, local_repo: Option<&str>) -> (cmd: Invocation)
    ensures
        cmd@.program == XBPS_INSTALL@,
        cmd@.args == update_args(
            root@,
            match local_repo {
                Some(repo) => Some(repo@),
                None => None,
            },
        ),
{
    let mut args: Vec<String> = Vec::new();
    args.push("-u".to_owned());
    args.push("-r".to_owned());
    args.push(root.to_owned());
    match local_repo {
        Some(repo) => {
            args.push("-R".to_owned());
            args.push(repo.to_owned());
            assert(views(args@) =~= seq!["-u"@, "-r"@, root@, "-R"@, repo@]);
        },
        None => {
            assert(views(args@) =~= seq!["-u"@, "-r"@, root@]);
        },
    }
    Invocation { program: XBPS_INSTALL.to_owned(), args }
}

/// The command that synchronises the repository index under `root`.
pub fn _xbps_sync(root: &str) -> (cmd: Invocation)
    ensures
        cmd@.program == XBPS_INSTALL@,
        cmd@.args == seq!["-S"@, "-r"@, root@],
{
    let mut args: Vec<String> = Vec::new();
    args.push("-S".to_owned());
    args.push("-r".to_owned());
    args.push(root.to_owned());
    assert(views(args@) =~= seq!["-S"@, "-r"@, root@]);
    Invocation { program: XBPS_INSTALL.to_owned(), args }
}

/// The command that shows which packages under `root` an update would
/// touch: an update that fetches the index from memory only, and is fed the
/// answer that declines it.
pub fn xbps_update_check(root: &str) -> (check: Piped)
    ensures
        check.command@.program == XBPS_INSTALL@,
        check.command@.args == seq!["-M"@, "-u"@, "-r"@, root@],
        check.feeder@.program == ECHO@,
        check.feeder@.args == seq![DECLINE@],
{
    let mut args: Vec<String> = Vec::new();
    args.push("-M".to_owned());
    args.push("-u".to_owned());
    args.push("-r".to_owned());
    args.push(root.to_owned());
    assert(views(args@) =~= seq!["-M"@, "-u"@, "-r"@, root@]);
    let mut answer: Vec<String> = Vec::new();
    answer.push(DECLINE.to_owned());
    assert(views(answer@) =~= seq![DECLINE@]);
    Piped {
        command: Invocation { program: XBPS_INSTALL.to_owned(), args },
        feeder: Invocation { program: ECHO.to_owned(), args: answer },
    }
}

} // verus!
