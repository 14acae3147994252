use vstd::prelude::*;

use crate::cmd::{description_of, syntax_of, Command, CommandInfo, CommandKind};
use crate::text::{lex_lt, str_eq, str_lt};

verus! {

/// Index of the first entry named `n`, if any.
pub open spec fn first_index(s: Seq<(Seq<char>, CommandKind)>, n: Seq<char>) -> Option<int>
    decreases s.len(),
{
    if s.len() == 0 {
        None
    } else if s[0].0 == n {
        Some(0)
    } else {
        match first_index(s.drop_first(), n) {
            Some(i) => Some(i + 1),
            None => None,
        }
    }
}

/// Where the first entry of a name stands, and that none before it has that name.
pub proof fn lemma_first_index(s: Seq<(Seq<char>, CommandKind)>, n: Seq<char>)
    ensures
        match first_index(s, n) {
            Some(i) => 0 <= i < s.len() && s[i].0 == n && forall|j: int| 0 <= j < i ==> s[j].0 != n,
            None => forall|j: int| 0 <= j < s.len() ==> s[j].0 != n,
        },
    decreases s.len(),
{
    if s.len() > 0 {
        lemma_first_index(s.drop_first(), n);
        assert forall|j: int| 1 <= j < s.len() implies s[j] == s.drop_first()[j - 1] by {}
    }
}

/// The command that `n` names in `s`.
pub open spec fn lookup(s: Seq<(Seq<char>, CommandKind)>, n: Seq<char>) -> Option<CommandKind> {
    match first_index(s, n) {
        Some(i) => Some(s[i].1),
        None => None,
    }
}

/// `s` with `n` bound to `k`: the entry of that name replaced, or one added at the end.
pub open spec fn put(s: Seq<(Seq<char>, CommandKind)>, n: Seq<char>, k: CommandKind) -> Seq<(Seq<char>, CommandKind)> {
    match first_index(s, n) {
        Some(i) => s.update(i, (n, k)),
        None => s.push((n, k)),
    }
}

/// No two entries of `s` share a name.
pub open spec fn names_unique(s: Seq<(Seq<char>, CommandKind)>) -> bool {
    forall|i: int, j: int| 0 <= i < j < s.len() ==> s[i].0 != s[j].0
}

/// Name resolution: primary names first, then aliases.
pub open spec fn resolve(
    commands: Seq<(Seq<char>, CommandKind)>,
    aliases: Seq<(Seq<char>, CommandKind)>,
    n: Seq<char>,
) -> Option<CommandKind> {
    match lookup(commands, n) {
        Some(k) => Some(k),
        None => lookup(aliases, n),
    }
}

/// Where an entry named `n` goes in a sorted list: before the first name
/// that `n` precedes.
pub open spec fn insert_pos(l: Seq<(Seq<char>, CommandKind)>, n: Seq<char>) -> int
    decreases l.len(),
{
    if l.len() == 0 {
        0
    } else if lex_lt(n, l[0].0) {
        0
    } else {
        1 + insert_pos(l.drop_first(), n)
    }
}

/// The entries of `s` ordered by name, each put into place in turn.
pub open spec fn sorted_entries(s: Seq<(Seq<char>, CommandKind)>) -> Seq<(Seq<char>, CommandKind)>
    decreases s.len(),
{
    if s.len() == 0 {
        Seq::empty()
    } else {
        let l = sorted_entries(s.drop_last());
        l.insert(insert_pos(l, s.last().0), s.last())
    }
}

/// Name, description and syntax of each entry.
pub open spec fn listing_of(s: Seq<(Seq<char>, CommandKind)>) -> Seq<(Seq<char>, Seq<char>, Seq<char>)> {
    s.map_values(|e: (Seq<char>, CommandKind)| (e.0, description_of(e.1), syntax_of(e.1)))
}

/// The help text of one command.
pub open spec fn help_entry(e: (Seq<char>, Seq<char>, Seq<char>)) -> Seq<char> {
    e.0 + " - "@ + e.1 + "\n      Syntax: "@ + e.2 + "\n\n"@
}

pub open spec fn help_body(l: Seq<(Seq<char>, Seq<char>, Seq<char>)>) -> Seq<char>
    decreases l.len(),
{
    if l.len() == 0 {
        Seq::empty()
    } else {
        help_body(l.drop_last()) + help_entry(l.last())
    }
}

/// The full help text for a listing.
pub open spec fn help_text(l: Seq<(Seq<char>, Seq<char>, Seq<char>)>) -> Seq<char> {
    "\nAvailable commands:\n\n"@ + help_body(l)
}

/// The primary names, in the order they are registered.
pub open spec fn builtin_commands() -> Seq<(Seq<char>, CommandKind)> {
    seq![
        ("cd"@, CommandKind::ChangeDirectory),
        ("ls"@, CommandKind::ListDirectory),
        ("help"@, CommandKind::Help),
        ("quit"@, CommandKind::Quit),
        ("clear"@, CommandKind::Clear),
    ]
}

/// The aliases, in the order they are registered.
pub open spec fn builtin_aliases() -> Seq<(Seq<char>, CommandKind)> {
    seq![("exit"@, CommandKind::Quit), ("cls"@, CommandKind::Clear)]
}

pub open spec fn named_view(v: Seq<(String, CommandKind)>) -> Seq<(Seq<char>, CommandKind)> {
    v.map_values(|e: (String, CommandKind)| (e.0@, e.1))
}

pub open spec fn info_view(v: Seq<(String, CommandInfo)>) -> Seq<(Seq<char>, Seq<char>, Seq<char>)> {
    v.map_values(|e: (String, CommandInfo)| (e.0@, e.1.description@, e.1.syntax@))
}

/// Maps each invocable name to its command. Primary names and aliases are kept
/// apart: both resolve, only primary names are listed.
pub struct CommandRegistry {
    commands: Vec<(String, CommandKind)>,
    aliases: Vec<(String, CommandKind)>,
}

proof fn lemma_put_fresh(s: Seq<(Seq<char>, CommandKind)>, n: Seq<char>, k: CommandKind)
    requires
        forall|j: int| 0 <= j < s.len() ==> s[j].0 != n,
    ensures
        put(s, n, k) == s.push((n, k)),
{
    lemma_first_index(s, n);
}

/// Index of the first entry of `v` named `name`.
fn position(v: &Vec<(String, CommandKind)>, name: &str) -> (r: Option<usize>)
    ensures
        match r {
            Some(i) => first_index(named_view(v@), name@) == Some(i as int) && i < v@.len(),
            None => first_index(named_view(v@), name@) is None,
        },
{
    let ghost s = named_view(v@);
    let mut i: usize = 0;
    assert(s.skip(0) =~= s);
    while i < v.len()
        invariant
            i <= v@.len(),
            s == named_view(v@),
            first_index(s, name@) == match first_index(s.skip(i as int), name@) {
                Some(j) => Some(j + i),
                None => None::<int>,
            },
        decreases v.len() - i,
    {
        assert(s.skip(i as int)[0] == s[i as int]);
        if str_eq(v[i].0.as_str(), name) {
            proof {
                lemma_first_index(s, name@);
            }
            return Some(i);
        }
        assert(s.skip(i as int).drop_first() =~= s.skip(i + 1));
        i = i + 1;
    }
    None
}

/// Where an entry named `name` goes in the sorted `v`.
fn sorted_position(v: &Vec<(String, CommandKind)>, name: &str) -> (r: usize)
    ensures
        r as int == insert_pos(named_view(v@), name@),
        r <= v@.len(),
{
    let ghost s = named_view(v@);
    let mut i: usize = 0;
    assert(s.skip(0) =~= s);
    while i < v.len()
        invariant
            i <= v@.len(),
            s == named_view(v@),
            insert_pos(s, name@) == i + insert_pos(s.skip(i as int), name@),
        decreases v.len() - i,
    {
        assert(s.skip(i as int)[0] == s[i as int]);
        if str_lt(name, v[i].0.as_str()) {
            return i;
        }
        assert(s.skip(i as int).drop_first() =~= s.skip(i + 1));
        i = i + 1;
    }
    i
}

/// Binds `name` to `kind` in `v`, replacing an entry of that name.
fn bind(v: &mut Vec<(String, CommandKind)>, name: &str, kind: CommandKind)
    ensures
        named_view(final(v)@) == put(named_view(old(v)@), name@, kind),
        names_unique(named_view(old(v)@)) ==> names_unique(named_view(final(v)@)),
{
    proof {
        lemma_first_index(named_view(v@), name@);
    }
    match position(v, name) {
        Some(i) => {
            v.set(i, (name.to_owned(), kind));
            assert(named_view(v@) =~= put(named_view(old(v)@), name@, kind));
        },
        None => {
            v.push((name.to_owned(), kind));
            assert(named_view(v@) =~= put(named_view(old(v)@), name@, kind));
        },
    }
}

/// The help text for a listing of commands.
pub fn render_help(list: &Vec<(String, CommandInfo)>) -> (r: String)
    ensures
        r@ == help_text(info_view(list@)),
{
    let mut s = String::from_str("\nAvailable commands:\n\n");
    let mut i: usize = 0;
    while i < list.len()
        invariant
            i <= list@.len(),
            s@ == "\nAvailable commands:\n\n"@ + help_body(info_view(list@).take(i as int)),
        decreases list.len() - i,
    {
        assert(info_view(list@).take(i + 1).drop_last() =~= info_view(list@).take(i as int));
        s.append(list[i].0.as_str());
        s.append(" - ");
        s.append(list[i].1.description);
        s.append("\n      Syntax: ");
        s.append(list[i].1.syntax);
        s.append("\n\n");
        assert(s@ =~= "\nAvailable commands:\n\n"@ + help_body(info_view(list@).take(i + 1)));
        i = i + 1;
    }
    assert(info_view(list@).take(list@.len() as int) =~= info_view(list@));
    s
}

impl CommandRegistry {
    pub closed spec fn commands_view(&self) -> Seq<(Seq<char>, CommandKind)> {
        named_view(self.commands@)
    }

    pub closed spec fn aliases_view(&self) -> Seq<(Seq<char>, CommandKind)> {
        named_view(self.aliases@)
    }

    /// Within each name space, no name is bound twice.
    pub open spec fn wf(&self) -> bool {
        names_unique(self.commands_view()) && names_unique(self.aliases_view())
    }

    /// The registry of the built-in commands and their aliases.
    pub fn new() -> (r: CommandRegistry)
        ensures
            r.wf(),
            r.commands_view() == builtin_commands(),
            r.aliases_view() == builtin_aliases(),
    {
        let mut registry = CommandRegistry { commands: Vec::new(), aliases: Vec::new() };
        proof {
            reveal_strlit("cd");
            reveal_strlit("ls");
            reveal_strlit("help");
            reveal_strlit("quit");
            reveal_strlit("clear");
            reveal_strlit("exit");
            reveal_strlit("cls");
        }
        assert(registry.commands_view() =~= Seq::empty());
        assert(registry.aliases_view() =~= Seq::empty());
        assert("cd"@[0] == 'c' && "ls"@[0] == 'l' && "help"@[0] == 'h' && "quit"@[0] == 'q');
        assert("clear"@[0] == 'c' && "clear"@[1] == 'l' && "cd"@[1] == 'd' && "cd"@.len() == 2);
        assert("exit"@[0] == 'e' && "cls"@[0] == 'c');
        let ghost b = builtin_commands();
        let ghost a = builtin_aliases();
        registry.register_command("cd", CommandKind::ChangeDirectory);
        proof { lemma_put_fresh(b.take(0), b[0].0, b[0].1); }
        assert(registry.commands_view() =~= b.take(1));
        registry.register_command("ls", CommandKind::ListDirectory);
        proof { lemma_put_fresh(b.take(1), b[1].0, b[1].1); }
        assert(registry.commands_view() =~= b.take(2));
        registry.register_command("help", CommandKind::Help);
        proof { lemma_put_fresh(b.take(2), b[2].0, b[2].1); }
        assert(registry.commands_view() =~= b.take(3));
        registry.register_command("quit", CommandKind::Quit);
        proof { lemma_put_fresh(b.take(3), b[3].0, b[3].1); }
        assert(registry.commands_view() =~= b.take(4));
        registry.register_command("clear", CommandKind::Clear);
        proof { lemma_put_fresh(b.take(4), b[4].0, b[4].1); }
        assert(registry.commands_view() =~= b);
        registry.register_alias("exit", CommandKind::Quit);
        proof { lemma_put_fresh(a.take(0), a[0].0, a[0].1); }
        assert(registry.aliases_view() =~= a.take(1));
        registry.register_alias("cls", CommandKind::Clear);
        proof { lemma_put_fresh(a.take(1), a[1].0, a[1].1); }
        assert(registry.aliases_view() =~= a);
        registry
    }

    fn register_command(&mut self, name: &str, command: CommandKind)
        ensures
            final(self).commands_view() == put(old(self).commands_view(), name@, command),
            final(self).aliases_view() == old(self).aliases_view(),
    {
        bind(&mut self.commands, name, command);
    }

    fn register_alias(&mut self, name: &str, command: CommandKind)
        ensures
            final(self).aliases_view() == put(old(self).aliases_view(), name@, command),
            final(self).commands_view() == old(self).commands_view(),
    {
        bind(&mut self.aliases, name, command);
    }

    /// The command that `name` invokes: a primary name first, else an alias.
    pub fn get_command(&self, name: &str) -> (r: Option<CommandKind>)
        ensures
            r == resolve(self.commands_view(), self.aliases_view(), name@),
    {
        match position(&self.commands, name) {
            Some(i) => Some(self.commands[i].1),
            None => match position(&self.aliases, name) {
                Some(i) => Some(self.aliases[i].1),
                None => None,
            },
        }
    }

    /// Name, description and syntax of each primary command, sorted by name.
    /// Aliases are not listed.
    pub fn list_commands(&self) -> (r: Vec<(String, CommandInfo)>)
        ensures
            info_view(r@) == listing_of(sorted_entries(self.commands_view())),
    {
        let ghost s = self.commands_view();
        let mut sorted: Vec<(String, CommandKind)> = Vec::new();
        let mut i: usize = 0;
        assert(named_view(sorted@) =~= sorted_entries(s.take(0)));
        while i < self.commands.len()
            invariant
                i <= self.commands@.len(),
                s == named_view(self.commands@),
                named_view(sorted@) == sorted_entries(s.take(i as int)),
            decreases self.commands.len() - i,
        {
            assert(s.take(i + 1).drop_last() =~= s.take(i as int));
            let p = sorted_position(&sorted, self.commands[i].0.as_str());
            let ghost before = sorted@;
            sorted.insert(p, (self.commands[i].0.clone(), self.commands[i].1));
            assert(named_view(sorted@) =~= named_view(before).insert(p as int, s[i as int]));
            i = i + 1;
        }
        assert(s.take(s.len() as int) =~= s);
        let mut out: Vec<(String, CommandInfo)> = Vec::new();
        let mut j: usize = 0;
        while j < sorted.len()
            invariant
                j <= sorted@.len(),
                out@.len() == j,
                info_view(out@) == listing_of(named_view(sorted@)).take(j as int),
            decreases sorted.len() - j,
        {
            assert(named_view(sorted@)[j as int] == (sorted@[j as int].0@, sorted@[j as int].1));
            let info = sorted[j].1.description();
            let ghost before = out@;
            out.push((sorted[j].0.clone(), info));
            assert(info_view(out@)[j as int] == listing_of(named_view(sorted@))[j as int]);
            assert(info_view(out@).take(j as int) =~= info_view(before));
            assert(info_view(out@) =~= listing_of(named_view(sorted@)).take(j + 1));
            j = j + 1;
        }
        assert(listing_of(named_view(sorted@)).take(j as int) =~= listing_of(named_view(sorted@)));
        out
    }
}

} // verus!
