use vstd::prelude::*;

use crate::cmd::{description_of, outcome, syntax_of, CommandKind};
use crate::cmd_registry::{
    builtin_aliases, builtin_commands, insert_pos, lemma_first_index, lookup, resolve, sorted_entries, CommandRegistry,
};
use crate::shell::{step_action, step_closes};
use crate::text::lex_lt;

verus! {

/// Whether no entry of `l` has a name that comes before the name of an earlier entry.
pub open spec fn sorted_by_name(l: Seq<(Seq<char>, CommandKind)>) -> bool {
    forall|i: int, j: int| 0 <= i < j < l.len() ==> !lex_lt(l[j].0, l[i].0)
}

/// The order of names is transitive.
pub proof fn lemma_lex_lt_transitive(a: Seq<char>, b: Seq<char>, c: Seq<char>)
    requires
        lex_lt(a, b),
        lex_lt(b, c),
    ensures
        lex_lt(a, c),
    decreases a.len(),
{
    if a.len() > 0 && a[0] == b[0] && b[0] == c[0] {
        lemma_lex_lt_transitive(a.drop_first(), b.drop_first(), c.drop_first());
    }
}

/// No name comes before itself.
pub proof fn lemma_lex_lt_irreflexive(a: Seq<char>)
    ensures
        !lex_lt(a, a),
    decreases a.len(),
{
    if a.len() > 0 {
        lemma_lex_lt_irreflexive(a.drop_first());
    }
}

proof fn lemma_insert_pos(l: Seq<(Seq<char>, CommandKind)>, n: Seq<char>)
    ensures
        0 <= insert_pos(l, n) <= l.len(),
        forall|k: int| 0 <= k < insert_pos(l, n) ==> !lex_lt(n, l[k].0),
        insert_pos(l, n) < l.len() ==> lex_lt(n, l[insert_pos(l, n)].0),
    decreases l.len(),
{
    if l.len() > 0 && !lex_lt(n, l[0].0) {
        lemma_insert_pos(l.drop_first(), n);
        assert forall|k: int| 1 <= k < l.len() implies l[k] == l.drop_first()[k - 1] by {}
    }
}

/// Listing the commands puts them in order of their names, whatever order
/// they were registered in.
pub proof fn lemma_listing_sorted(s: Seq<(Seq<char>, CommandKind)>)
    ensures
        sorted_by_name(sorted_entries(s)),
        sorted_entries(s).len() == s.len(),
    decreases s.len(),
{
    if s.len() > 0 {
        let l = sorted_entries(s.drop_last());
        let e = s.last();
        lemma_listing_sorted(s.drop_last());
        lemma_insert_pos(l, e.0);
        let p = insert_pos(l, e.0);
        let r = l.insert(p, e);
        assert forall|i: int, j: int| 0 <= i < j < r.len() implies !lex_lt(r[j].0, r[i].0) by {
            if j < p {
                assert(r[i] == l[i] && r[j] == l[j]);
            } else if j == p {
                assert(r[i] == l[i] && r[j] == e);
            } else if i < p {
                assert(r[i] == l[i] && r[j] == l[j - 1]);
            } else if i == p {
                assert(r[i] == e && r[j] == l[j - 1]);
                if lex_lt(l[j - 1].0, e.0) {
                    lemma_lex_lt_transitive(l[j - 1].0, e.0, l[p].0);
                    lemma_lex_lt_irreflexive(l[p].0);
                }
            } else {
                assert(r[i] == l[i - 1] && r[j] == l[j - 1]);
            }
        }
    }
}

/// Listing the commands keeps exactly the registered entries: each as many
/// times as it was registered, none added, none lost.
pub proof fn lemma_listing_permutes(s: Seq<(Seq<char>, CommandKind)>)
    ensures
        sorted_entries(s).to_multiset() == s.to_multiset(),
    decreases s.len(),
{
    broadcast use vstd::seq_lib::to_multiset_build, vstd::seq_lib::to_multiset_insert;

    if s.len() == 0 {
        assert(s =~= Seq::<(Seq<char>, CommandKind)>::empty());
    } else {
        let l = sorted_entries(s.drop_last());
        lemma_listing_permutes(s.drop_last());
        lemma_insert_pos(l, s.last().0);
        assert(s.drop_last().push(s.last()) =~= s);
    }
}

/// Every primary name of a registry resolves to a command whose description
/// and syntax are not empty.
pub proof fn lemma_primary_names_resolve(reg: CommandRegistry, i: int)
    requires
        0 <= i < reg.commands_view().len(),
    ensures
        resolve(reg.commands_view(), reg.aliases_view(), reg.commands_view()[i].0) is Some,
        description_of(resolve(reg.commands_view(), reg.aliases_view(), reg.commands_view()[i].0)->0).len() > 0,
        syntax_of(resolve(reg.commands_view(), reg.aliases_view(), reg.commands_view()[i].0)->0).len() > 0,
{
    lemma_first_index(reg.commands_view(), reg.commands_view()[i].0);
    reveal_strlit("Changes the current directory.");
    reveal_strlit("Lists the contents of the current directory.");
    reveal_strlit("Displays this help message.");
    reveal_strlit("Exits the shell");
    reveal_strlit("Clears the console");
    reveal_strlit("cd [directory]");
    reveal_strlit("ls [-a | all]");
    reveal_strlit("help");
    reveal_strlit("quit");
    reveal_strlit("clear");
}

/// In the built-in registry `exit` behaves as `quit`, and `cls` as `clear`,
/// whatever the arguments and the session: the same action, and the same
/// effect on the stop flag.
pub proof fn lemma_aliases_match_primaries(
    reg: CommandRegistry,
    dir: Seq<char>,
    closed: bool,
    args: Seq<Seq<char>>,
)
    requires
        reg.commands_view() == builtin_commands(),
        reg.aliases_view() == builtin_aliases(),
    ensures
        step_action(reg, dir, seq!["exit"@] + args) == step_action(reg, dir, seq!["quit"@] + args),
        step_closes(reg, closed, seq!["exit"@] + args) == step_closes(reg, closed, seq!["quit"@] + args),
        step_closes(reg, closed, seq!["quit"@] + args),
        step_action(reg, dir, seq!["cls"@] + args) == step_action(reg, dir, seq!["clear"@] + args),
        step_closes(reg, closed, seq!["cls"@] + args) == step_closes(reg, closed, seq!["clear"@] + args),
{
    let c = builtin_commands();
    let a = builtin_aliases();
    reveal_strlit("cd");
    reveal_strlit("ls");
    reveal_strlit("help");
    reveal_strlit("quit");
    reveal_strlit("clear");
    reveal_strlit("exit");
    reveal_strlit("cls");
    assert("cd"@[0] == 'c' && "ls"@[0] == 'l' && "help"@[0] == 'h' && "quit"@[0] == 'q');
    assert("clear"@[0] == 'c' && "clear"@[1] == 'l' && "cd"@[1] == 'd' && "cd"@.len() == 2);
    assert("exit"@[0] == 'e' && "cls"@[0] == 'c' && "cls"@[1] == 'l' && "cls"@.len() == 3);
    lemma_first_index(c, "quit"@);
    lemma_first_index(c, "clear"@);
    lemma_first_index(c, "exit"@);
    lemma_first_index(c, "cls"@);
    lemma_first_index(a, "exit"@);
    lemma_first_index(a, "cls"@);
    assert(lookup(c, "quit"@) == Some(CommandKind::Quit));
    assert(lookup(c, "clear"@) == Some(CommandKind::Clear));
    assert(lookup(c, "exit"@) is None);
    assert(lookup(c, "cls"@) is None);
    assert(lookup(a, "exit"@) == Some(CommandKind::Quit));
    assert(lookup(a, "cls"@) == Some(CommandKind::Clear));
    assert((seq!["exit"@] + args)[0] == "exit"@ && (seq!["exit"@] + args).skip(1) =~= args);
    assert((seq!["quit"@] + args)[0] == "quit"@ && (seq!["quit"@] + args).skip(1) =~= args);
    assert((seq!["cls"@] + args)[0] == "cls"@ && (seq!["cls"@] + args).skip(1) =~= args);
    assert((seq!["clear"@] + args)[0] == "clear"@ && (seq!["clear"@] + args).skip(1) =~= args);
}

/// Help keeps no state: from any two sessions, with any arguments, it asks to
/// print the same text, and it leaves the stop flag as it was.
pub proof fn lemma_help_repeatable(
    reg: CommandRegistry,
    dir1: Seq<char>,
    dir2: Seq<char>,
    closed: bool,
    args1: Seq<Seq<char>>,
    args2: Seq<Seq<char>>,
)
    requires
        reg.commands_view() == builtin_commands(),
    ensures
        step_action(reg, dir1, seq!["help"@] + args1) == step_action(reg, dir2, seq!["help"@] + args2),
        step_closes(reg, closed, seq!["help"@] + args1) == closed,
        outcome(CommandKind::Help, dir1, args1) == outcome(CommandKind::Help, dir2, args2),
{
    let c = builtin_commands();
    reveal_strlit("cd");
    reveal_strlit("ls");
    reveal_strlit("help");
    reveal_strlit("quit");
    reveal_strlit("clear");
    assert("cd"@[0] == 'c' && "ls"@[0] == 'l' && "help"@[0] == 'h' && "quit"@[0] == 'q');
    assert("clear"@[0] == 'c');
    lemma_first_index(c, "help"@);
    assert(lookup(c, "help"@) == Some(CommandKind::Help));
    assert((seq!["help"@] + args1)[0] == "help"@);
    assert((seq!["help"@] + args2)[0] == "help"@);
}

} // verus!
