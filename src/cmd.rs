use vstd::prelude::*;

use crate::cmd_registry::{builtin_commands, help_text, listing_of, sorted_entries, CommandRegistry};
use crate::shell::Shell;
use crate::text::{str_eq, strings_view};

verus! {

/// Help metadata of a command: what it does and how it is written.
#[derive(Clone, Copy)]
pub struct CommandInfo {
    pub description: &'static str,
    pub syntax: &'static str,
}

/// Why one invocation of a command failed. The session goes on after any of them.
#[derive(Clone, Copy, PartialEq, Eq, Structural, Debug)]
pub enum CmdError {
    NoDirectory,
    InvalidPath,
    NotADirectory,
    ReadDirFailed,
    ReadEntryFailed,
}

impl CmdError {
    /// The diagnostic shown for this failure.
    pub fn message(&self) -> (r: &'static str)
        ensures
            *self == CmdError::NoDirectory ==> r@ == "No directory specified"@,
            *self == CmdError::InvalidPath ==> r@ == "Invalid path or directory does not exist"@,
            *self == CmdError::NotADirectory ==> r@ == "The specified path is not a directory"@,
            *self == CmdError::ReadDirFailed ==> r@ == "Failed to read the directory\n"@,
            *self == CmdError::ReadEntryFailed ==> r@ == "Failed to read a directory entry"@,
    {
        match self {
            CmdError::NoDirectory => "No directory specified",
            CmdError::InvalidPath => "Invalid path or directory does not exist",
            CmdError::NotADirectory => "The specified path is not a directory",
            CmdError::ReadDirFailed => "Failed to read the directory\n",
            CmdError::ReadEntryFailed => "Failed to read a directory entry",
        }
    }
}

/// The outside work that a command asks for once its decision is made.
pub enum Effect {
    /// Nothing to do.
    Nothing,
    /// Write this text to standard output.
    Print(String),
    /// Write the terminal's clear-screen sequence.
    ClearScreen,
    /// List the current directory; `true` asks for hidden entries too.
    ListDir(bool),
    /// Canonicalize this path and, if it is a directory, make it current.
    ChangeDir(String),
}

pub enum EffectView {
    Nothing,
    Print(Seq<char>),
    ClearScreen,
    ListDir(bool),
    ChangeDir(Seq<char>),
}

impl View for Effect {
    type V = EffectView;

    open spec fn view(&self) -> EffectView {
        match self {
            Effect::Nothing => EffectView::Nothing,
            Effect::Print(s) => EffectView::Print(s@),
            Effect::ClearScreen => EffectView::ClearScreen,
            Effect::ListDir(all) => EffectView::ListDir(*all),
            Effect::ChangeDir(p) => EffectView::ChangeDir(p@),
        }
    }
}

pub open spec fn result_view(r: Result<Effect, CmdError>) -> Result<EffectView, CmdError> {
    match r {
        Ok(e) => Ok(e@),
        Err(c) => Err(c),
    }
}

/// The closed set of built-in commands.
#[derive(Clone, Copy, PartialEq, Eq, Structural, Debug)]
pub enum CommandKind {
    ChangeDirectory,
    ListDirectory,
    Help,
    Quit,
    Clear,
}

pub open spec fn description_of(k: CommandKind) -> Seq<char> {
    match k {
        CommandKind::ChangeDirectory => "Changes the current directory."@,
        CommandKind::ListDirectory => "Lists the contents of the current directory."@,
        CommandKind::Help => "Displays this help message."@,
        CommandKind::Quit => "Exits the shell"@,
        CommandKind::Clear => "Clears the console"@,
    }
}

pub open spec fn syntax_of(k: CommandKind) -> Seq<char> {
    match k {
        CommandKind::ChangeDirectory => "cd [directory]"@,
        CommandKind::ListDirectory => "ls [-a | all]"@,
        CommandKind::Help => "help"@,
        CommandKind::Quit => "quit"@,
        CommandKind::Clear => "clear"@,
    }
}

/// Whether a path is absolute: it starts at the root. Paths here follow Unix
/// rules; the shell's path handling targets Unix-like systems.
pub open spec fn is_absolute(p: Seq<char>) -> bool {
    p.len() > 0 && p[0] == '/'
}

/// `dir` with `p` appended as one more component: a separator goes between
/// them unless `dir` is empty or already ends in one. The separator is the
/// Unix one, `/`.
pub open spec fn join_path(dir: Seq<char>, p: Seq<char>) -> Seq<char> {
    if dir.len() == 0 || dir.last() == '/' {
        dir + p
    } else {
        dir + seq!['/'] + p
    }
}

/// The path that `cd p` asks for from `dir`: `p` itself if absolute, else
/// `p` taken relative to `dir`.
pub open spec fn target_of(dir: Seq<char>, p: Seq<char>) -> Seq<char> {
    if is_absolute(p) {
        p
    } else {
        join_path(dir, p)
    }
}

/// Whether the arguments ask `ls` for every entry, hidden ones included.
pub open spec fn wants_all(args: Seq<Seq<char>>) -> bool {
    exists|i: int| 0 <= i < args.len() && (args[i] == "all"@ || args[i] == "-a"@)
}

/// What one invocation of `k` from directory `dir` with `args` returns.
pub open spec fn outcome(k: CommandKind, dir: Seq<char>, args: Seq<Seq<char>>) -> Result<EffectView, CmdError> {
    match k {
        CommandKind::ChangeDirectory => if args.len() == 0 {
            Err(CmdError::NoDirectory)
        } else {
            Ok(EffectView::ChangeDir(target_of(dir, args[0])))
        },
        CommandKind::ListDirectory => Ok(EffectView::ListDir(wants_all(args))),
        CommandKind::Help => Ok(EffectView::Print(help_text(listing_of(sorted_entries(builtin_commands()))))),
        CommandKind::Quit => Ok(EffectView::Nothing),
        CommandKind::Clear => Ok(EffectView::ClearScreen),
    }
}

/// A command of the shell. Running one decides what happens from the session
/// and the arguments alone; the only state it changes is the stop flag, which
/// `quit` sets.
pub trait Command {
    spec fn kind(&self) -> CommandKind;

    fn run(&self, shell: &mut Shell, args: &[String]) -> (r: Result<Effect, CmdError>)
        ensures
            final(shell).config == old(shell).config,
            final(shell).curr_dir == old(shell).curr_dir,
            final(shell).close_shell == (old(shell).close_shell || self.kind() == CommandKind::Quit),
            result_view(r) == outcome(self.kind(), old(shell).curr_dir@, strings_view(args@)),
    ;

    fn description(&self) -> (r: CommandInfo)
        ensures
            r.description@ == description_of(self.kind()),
            r.syntax@ == syntax_of(self.kind()),
    ;
}

/// The path that `cd arg` asks for from `dir`.
pub fn target_path(dir: &str, arg: &str) -> (r: String)
    ensures
        r@ == target_of(dir@, arg@),
{
    if arg.unicode_len() > 0 && arg.get_char(0) == '/' {
        return arg.to_owned();
    }
    let mut s = dir.to_owned();
    let n = dir.unicode_len();
    if n > 0 && dir.get_char(n - 1) != '/' {
        s.append("/");
        proof {
            reveal_strlit("/");
        }
        assert("/"@ =~= seq!['/']);
    }
    s.append(arg);
    s
}

/// Whether any argument is `all` or `-a`.
pub fn show_all(args: &[String]) -> (r: bool)
    ensures
        r == wants_all(strings_view(args@)),
{
    let mut i: usize = 0;
    while i < args.len()
        invariant
            i <= args@.len(),
            forall|j: int| 0 <= j < i ==> !(args@[j]@ == "all"@ || args@[j]@ == "-a"@),
        decreases args.len() - i,
    {
        if str_eq(args[i].as_str(), "all") || str_eq(args[i].as_str(), "-a") {
            assert(strings_view(args@)[i as int] == args@[i as int]@);
            return true;
        }
        i = i + 1;
    }
    proof {
        assert forall|j: int| 0 <= j < strings_view(args@).len() implies !(strings_view(args@)[j] == "all"@
            || strings_view(args@)[j] == "-a"@) by {
            assert(strings_view(args@)[j] == args@[j]@);
        }
    }
    false
}

/// Whether a directory entry's name marks it as hidden.
pub open spec fn is_hidden(name: Seq<char>) -> bool {
    name.len() > 0 && name[0] == '.'
}

/// The lines that `ls` prints for `entries` (each a name and a full path):
/// every full path when `all`, else the name of each entry that is not hidden.
pub open spec fn listing_lines(entries: Seq<(Seq<char>, Seq<char>)>, all: bool) -> Seq<Seq<char>>
    decreases entries.len(),
{
    if entries.len() == 0 {
        Seq::empty()
    } else {
        let prev = listing_lines(entries.drop_last(), all);
        let e = entries.last();
        if all {
            prev.push(e.1)
        } else if is_hidden(e.0) {
            prev
        } else {
            prev.push(e.0)
        }
    }
}

pub open spec fn entries_view(v: Seq<(String, String)>) -> Seq<(Seq<char>, Seq<char>)> {
    v.map_values(|e: (String, String)| (e.0@, e.1@))
}

/// The lines that `ls` prints for the entries of a directory, each given as its
/// name and its full path.
pub fn ls_lines(entries: &Vec<(String, String)>, all: bool) -> (r: Vec<String>)
    ensures
        strings_view(r@) == listing_lines(entries_view(entries@), all),
{
    let mut out: Vec<String> = Vec::new();
    let mut i: usize = 0;
    while i < entries.len()
        invariant
            i <= entries@.len(),
            strings_view(out@) == listing_lines(entries_view(entries@).take(i as int), all),
        decreases entries.len() - i,
    {
        assert(entries_view(entries@).take(i + 1).drop_last() =~= entries_view(entries@).take(i as int));
        let name = &entries[i].0;
        let path = &entries[i].1;
        if all {
            out.push(path.clone());
        } else {
            let n = name.as_str().unicode_len();
            if !(n > 0 && name.as_str().get_char(0) == '.') {
                out.push(name.clone());
            }
        }
        assert(strings_view(out@) =~= listing_lines(entries_view(entries@).take(i + 1), all));
        i = i + 1;
    }
    assert(entries_view(entries@).take(entries@.len() as int) =~= entries_view(entries@));
    out
}

/// `cd`: asks to move to a directory.
pub struct CdCommand;

/// `ls`: asks to list the current directory.
pub struct LsCommand;

/// `help`: the sorted list of primary commands.
pub struct HelpCommand;

/// `quit`: stops the session.
pub struct QuitCommand;

/// `clear`: asks to clear the screen.
pub struct ClearCommand;

impl Command for CdCommand {
    open spec fn kind(&self) -> CommandKind {
        CommandKind::ChangeDirectory
    }

    fn run(&self, shell: &mut Shell, args: &[String]) -> (r: Result<Effect, CmdError>) {
        if args.len() == 0 {
            return Err(CmdError::NoDirectory);
        }
        let p = target_path(shell.curr_dir.as_str(), args[0].as_str());
        assert(strings_view(args@)[0] == args@[0]@);
        Ok(Effect::ChangeDir(p))
    }

    fn description(&self) -> (r: CommandInfo) {
        CommandInfo { description: "Changes the current directory.", syntax: "cd [directory]" }
    }
}

impl Command for LsCommand {
    open spec fn kind(&self) -> CommandKind {
        CommandKind::ListDirectory
    }

    fn run(&self, shell: &mut Shell, args: &[String]) -> (r: Result<Effect, CmdError>) {
        Ok(Effect::ListDir(show_all(args)))
    }

    fn description(&self) -> (r: CommandInfo) {
        CommandInfo {
            description: "Lists the contents of the current directory.",
            syntax: "ls [-a | all]",
        }
    }
}

impl Command for HelpCommand {
    open spec fn kind(&self) -> CommandKind {
        CommandKind::Help
    }

    fn run(&self, shell: &mut Shell, args: &[String]) -> (r: Result<Effect, CmdError>) {
        let registry = CommandRegistry::new();
        let list = registry.list_commands();
        Ok(Effect::Print(crate::cmd_registry::render_help(&list)))
    }

    fn description(&self) -> (r: CommandInfo) {
        CommandInfo { description: "Displays this help message.", syntax: "help" }
    }
}

impl Command for QuitCommand {
    open spec fn kind(&self) -> CommandKind {
        CommandKind::Quit
    }

    fn run(&self, shell: &mut Shell, args: &[String]) -> (r: Result<Effect, CmdError>) {
        shell.close_shell = true;
        Ok(Effect::Nothing)
    }

    fn description(&self) -> (r: CommandInfo) {
        CommandInfo { description: "Exits the shell", syntax: "quit" }
    }
}

impl Command for ClearCommand {
    open spec fn kind(&self) -> CommandKind {
        CommandKind::Clear
    }

    fn run(&self, shell: &mut Shell, args: &[String]) -> (r: Result<Effect, CmdError>) {
        Ok(Effect::ClearScreen)
    }

    fn description(&self) -> (r: CommandInfo) {
        CommandInfo { description: "Clears the console", syntax: "clear" }
    }
}

impl Command for CommandKind {
    open spec fn kind(&self) -> CommandKind {
        *self
    }

    fn run(&self, shell: &mut Shell, args: &[String]) -> (r: Result<Effect, CmdError>) {
        match self {
            CommandKind::ChangeDirectory => CdCommand.run(shell, args),
            CommandKind::ListDirectory => LsCommand.run(shell, args),
            CommandKind::Help => HelpCommand.run(shell, args),
            CommandKind::Quit => QuitCommand.run(shell, args),
            CommandKind::Clear => ClearCommand.run(shell, args),
        }
    }

    fn description(&self) -> (r: CommandInfo) {
        match self {
            CommandKind::ChangeDirectory => CdCommand.description(),
            CommandKind::ListDirectory => LsCommand.description(),
            CommandKind::Help => HelpCommand.description(),
            CommandKind::Quit => QuitCommand.description(),
            CommandKind::Clear => ClearCommand.description(),
        }
    }
}

} // verus!
