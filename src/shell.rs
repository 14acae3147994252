use vstd::prelude::*;

use crate::cmd::{outcome, CmdError, Command, CommandKind, Effect, EffectView};
use crate::cmd_registry::{resolve, CommandRegistry};
use crate::config::Config;
use crate::text::{is_white_space, replace_all, replaced, split_words, strings_view, words_of};

verus! {

/// The session: configuration, current directory, and whether the shell was
/// asked to stop.
pub struct Shell {
    pub config: Config,
    pub curr_dir: String,
    pub close_shell: bool,
}

/// What the loop does with one line of input.
pub enum Action {
    /// The line held no words: nothing is dispatched.
    Idle,
    /// The first word names no command.
    NotFound,
    /// The command ran and asks for this effect.
    Ran(Effect),
    /// The command failed with this error; the session goes on.
    Failed(CmdError),
}

pub enum ActionView {
    Idle,
    NotFound,
    Ran(EffectView),
    Failed(CmdError),
}

impl View for Action {
    type V = ActionView;

    open spec fn view(&self) -> ActionView {
        match self {
            Action::Idle => ActionView::Idle,
            Action::NotFound => ActionView::NotFound,
            Action::Ran(e) => ActionView::Ran(e@),
            Action::Failed(c) => ActionView::Failed(*c),
        }
    }
}

/// The action for a line of `words` typed in directory `dir`.
pub open spec fn step_action(reg: CommandRegistry, dir: Seq<char>, words: Seq<Seq<char>>) -> ActionView {
    if words.len() == 0 {
        ActionView::Idle
    } else {
        match resolve(reg.commands_view(), reg.aliases_view(), words[0]) {
            None => ActionView::NotFound,
            Some(k) => match outcome(k, dir, words.skip(1)) {
                Ok(e) => ActionView::Ran(e),
                Err(c) => ActionView::Failed(c),
            },
        }
    }
}

/// Whether the session is to stop after a line of `words`.
pub open spec fn step_closes(reg: CommandRegistry, closed: bool, words: Seq<Seq<char>>) -> bool {
    closed || (words.len() > 0 && resolve(reg.commands_view(), reg.aliases_view(), words[0]) == Some(
        CommandKind::Quit,
    ))
}

/// The placeholder in the prompt template that stands for the current directory.
pub open spec fn placeholder() -> Seq<char> {
    "{curr_dir}"@
}

/// The prefix of long paths on some platforms, left out of the prompt.
pub open spec fn long_path_prefix() -> Seq<char> {
    "\\\\?\\"@
}

/// The prompt for template `style` in directory `dir`.
pub open spec fn prompt_of(style: Seq<char>, dir: Seq<char>) -> Seq<char> {
    replaced(style, placeholder(), replaced(dir, long_path_prefix(), Seq::empty()))
}

impl Shell {
    /// A running session in `curr_dir`, the process's directory at startup.
    pub fn build(config: Config, curr_dir: String) -> (r: Shell)
        ensures
            r.config == config,
            r.curr_dir == curr_dir,
            !r.close_shell,
    {
        Shell { config, curr_dir, close_shell: false }
    }

    /// The prompt: the template with the current directory in place of its placeholder.
    pub fn prompt(&self) -> (r: String)
        ensures
            r@ == prompt_of(self.config.style@, self.curr_dir@),
    {
        let dir = replace_all(self.curr_dir.as_str(), "\\\\?\\", "");
        proof {
            reveal_strlit("");
        }
        assert(""@ =~= Seq::<char>::empty());
        replace_all(self.config.style.as_str(), "{curr_dir}", dir.as_str())
    }

    /// Resolves the first word and runs that command on the rest.
    pub fn dispatch(&mut self, registry: &CommandRegistry, words: &Vec<String>) -> (r: Action)
        ensures
            r@ == step_action(*registry, old(self).curr_dir@, strings_view(words@)),
            final(self).close_shell == step_closes(*registry, old(self).close_shell, strings_view(words@)),
            final(self).curr_dir == old(self).curr_dir,
            final(self).config == old(self).config,
    {
        let ghost w = strings_view(words@);
        if words.len() == 0 {
            return Action::Idle;
        }
        assert(w[0] == words@[0]@);
        match registry.get_command(words[0].as_str()) {
            None => Action::NotFound,
            Some(k) => {
                let mut rest: Vec<String> = Vec::new();
                let mut i: usize = 1;
                while i < words.len()
                    invariant
                        1 <= i <= words@.len(),
                        w == strings_view(words@),
                        strings_view(rest@) == w.subrange(1, i as int),
                    decreases words.len() - i,
                {
                    let ghost before = rest@;
                    rest.push(words[i].clone());
                    assert(w[i as int] == words@[i as int]@);
                    assert(strings_view(rest@) =~= strings_view(before).push(w[i as int]));
                    assert(strings_view(rest@) =~= w.subrange(1, i + 1));
                    i = i + 1;
                }
                assert(w.subrange(1, w.len() as int) =~= w.skip(1));
                match k.run(self, rest.as_slice()) {
                    Ok(e) => Action::Ran(e),
                    Err(c) => Action::Failed(c),
                }
            },
        }
    }

    /// Splits a line into words and dispatches it.
    pub fn handle_line(&mut self, registry: &CommandRegistry, line: &str) -> (r: Action)
        ensures
            r@ == step_action(*registry, old(self).curr_dir@, words_of(line@)),
            final(self).close_shell == step_closes(*registry, old(self).close_shell, words_of(line@)),
            final(self).curr_dir == old(self).curr_dir,
            final(self).config == old(self).config,
            (forall|i: int| 0 <= i < line@.len() ==> is_white_space(#[trigger] line@[i])) ==> {
                &&& r@ == ActionView::Idle
                &&& final(self).close_shell == old(self).close_shell
            },
    {
        let words = split_words(line);
        assert(strings_view(words@).len() == words@.len());
        self.dispatch(registry, &words)
    }

    /// Completes `cd` once the requested path has been canonicalized: `None`
    /// when that failed, else the canonical path and whether it is a directory.
    /// The current directory changes only on success.
    pub fn apply_change_dir(&mut self, resolved: Option<(String, bool)>) -> (r: Result<(), CmdError>)
        ensures
            final(self).config == old(self).config,
            final(self).close_shell == old(self).close_shell,
            match resolved {
                None => r == Err::<(), CmdError>(CmdError::InvalidPath) && final(self).curr_dir == old(self).curr_dir,
                Some((p, true)) => r is Ok && final(self).curr_dir == p,
                Some((_, false)) => r == Err::<(), CmdError>(CmdError::NotADirectory) && final(self).curr_dir
                    == old(self).curr_dir,
            },
    {
        match resolved {
            None => Err(CmdError::InvalidPath),
            Some((p, is_dir)) => {
                if is_dir {
                    self.curr_dir = p;
                    Ok(())
                } else {
                    Err(CmdError::NotADirectory)
                }
            },
        }
    }
}

} // verus!
