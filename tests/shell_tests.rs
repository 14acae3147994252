use rshell::cmd::{
    ls_lines, show_all, target_path, CdCommand, ClearCommand, CmdError, Command, CommandKind, Effect,
    HelpCommand, LsCommand, QuitCommand,
};
use rshell::cmd_registry::{render_help, CommandRegistry};
use rshell::config::Config;
use rshell::shell::{Action, Shell};

fn session(dir: &str) -> Shell {
    let config = Config::new("1.0".to_string(), "rshell".to_string(), "{curr_dir} > ".to_string());
    Shell::build(config, dir.to_string())
}

fn words(line: &[&str]) -> Vec<String> {
    line.iter().map(|w| w.to_string()).collect()
}

fn printed(action: Action) -> String {
    match action {
        Action::Ran(Effect::Print(text)) => text,
        _ => panic!("expected printed text"),
    }
}

fn requested_dir(action: Action) -> String {
    match action {
        Action::Ran(Effect::ChangeDir(p)) => p,
        _ => panic!("expected a directory change"),
    }
}

#[test]
fn primary_names_resolve_with_descriptions() {
    let reg = CommandRegistry::new();
    for name in ["cd", "clear", "help", "ls", "quit"] {
        let cmd = reg.get_command(name).expect("primary name resolves");
        let first = cmd.description();
        let second = cmd.description();
        assert!(!first.description.is_empty());
        assert!(!first.syntax.is_empty());
        assert_eq!(first.description, second.description);
        assert_eq!(first.syntax, second.syntax);
    }
}

#[test]
fn lookup_is_exact_and_case_sensitive() {
    let reg = CommandRegistry::new();
    assert_eq!(reg.get_command("cd"), Some(CommandKind::ChangeDirectory));
    assert_eq!(reg.get_command("ls"), Some(CommandKind::ListDirectory));
    assert_eq!(reg.get_command("help"), Some(CommandKind::Help));
    assert_eq!(reg.get_command("exit"), Some(CommandKind::Quit));
    assert_eq!(reg.get_command("cls"), Some(CommandKind::Clear));
    assert_eq!(reg.get_command("CD"), None);
    assert_eq!(reg.get_command("c"), None);
    assert_eq!(reg.get_command("quitx"), None);
}

#[test]
fn quit_and_exit_both_end_the_session() {
    let reg = CommandRegistry::new();
    for name in ["quit", "exit"] {
        let mut sh = session("/home");
        let action = sh.dispatch(&reg, &words(&[name]));
        assert!(matches!(action, Action::Ran(Effect::Nothing)));
        assert!(sh.close_shell);
        assert_eq!(sh.curr_dir, "/home");
    }
}

#[test]
fn clear_and_cls_produce_the_same_effect() {
    let reg = CommandRegistry::new();
    let mut sh = session("/home");
    assert!(matches!(sh.dispatch(&reg, &words(&["clear"])), Action::Ran(Effect::ClearScreen)));
    assert!(matches!(sh.dispatch(&reg, &words(&["cls"])), Action::Ran(Effect::ClearScreen)));
    assert!(!sh.close_shell);
}

#[test]
fn list_is_sorted_and_excludes_aliases() {
    let reg = CommandRegistry::new();
    let names: Vec<String> = reg.list_commands().into_iter().map(|(n, _)| n).collect();
    assert_eq!(names, vec!["cd", "clear", "help", "ls", "quit"]);
}

#[test]
fn list_carries_each_commands_info() {
    let reg = CommandRegistry::new();
    let list = reg.list_commands();
    assert_eq!(list[0].1.description, "Changes the current directory.");
    assert_eq!(list[0].1.syntax, "cd [directory]");
    assert_eq!(list[3].1.description, "Lists the contents of the current directory.");
    assert_eq!(list[3].1.syntax, "ls [-a | all]");
    assert_eq!(list[4].1.description, "Exits the shell");
}

#[test]
fn cd_round_trip_returns_to_the_start() {
    let reg = CommandRegistry::new();
    let mut sh = session("/a/b");
    let up = requested_dir(sh.dispatch(&reg, &words(&["cd", ".."])));
    assert_eq!(up, "/a/b/..");
    assert_eq!(sh.curr_dir, "/a/b");
    assert_eq!(sh.apply_change_dir(Some(("/a".to_string(), true))), Ok(()));
    assert_eq!(sh.curr_dir, "/a");
    let down = requested_dir(sh.dispatch(&reg, &words(&["cd", "b"])));
    assert_eq!(down, "/a/b");
    assert_eq!(sh.apply_change_dir(Some(("/a/b".to_string(), true))), Ok(()));
    assert_eq!(sh.curr_dir, "/a/b");
}

#[test]
fn cd_to_missing_path_fails_and_keeps_directory() {
    let reg = CommandRegistry::new();
    let mut sh = session("/a/b");
    let target = requested_dir(sh.dispatch(&reg, &words(&["cd", "/no/such/dir"])));
    assert_eq!(target, "/no/such/dir");
    assert_eq!(sh.apply_change_dir(None), Err(CmdError::InvalidPath));
    assert_eq!(sh.curr_dir, "/a/b");
}

#[test]
fn cd_to_a_file_fails_and_keeps_directory() {
    let mut sh = session("/a/b");
    let r = sh.apply_change_dir(Some(("/a/b/file.txt".to_string(), false)));
    assert_eq!(r, Err(CmdError::NotADirectory));
    assert_eq!(r.unwrap_err().message(), "The specified path is not a directory");
    assert_eq!(sh.curr_dir, "/a/b");
}

#[test]
fn cd_without_argument_fails() {
    let reg = CommandRegistry::new();
    let mut sh = session("/a");
    let action = sh.dispatch(&reg, &words(&["cd"]));
    assert!(matches!(action, Action::Failed(CmdError::NoDirectory)));
    assert_eq!(CmdError::NoDirectory.message(), "No directory specified");
    assert_eq!(sh.curr_dir, "/a");
}

#[test]
fn cd_paths_join_with_one_separator() {
    assert_eq!(target_path("/", "etc"), "/etc");
    assert_eq!(target_path("/usr", "lib"), "/usr/lib");
    assert_eq!(target_path("/usr/", "lib"), "/usr/lib");
    assert_eq!(target_path("/usr", "/tmp"), "/tmp");
    assert_eq!(target_path("", "x"), "x");
}

#[test]
fn ls_hides_hidden_entries_unless_asked() {
    let entries = vec![
        (".hidden".to_string(), "/d/.hidden".to_string()),
        ("visible.txt".to_string(), "/d/visible.txt".to_string()),
    ];
    assert_eq!(ls_lines(&entries, false), vec!["visible.txt"]);
    assert_eq!(ls_lines(&entries, true), vec!["/d/.hidden", "/d/visible.txt"]);
    assert!(ls_lines(&Vec::new(), true).is_empty());
}

#[test]
fn ls_flag_is_read_from_arguments() {
    let reg = CommandRegistry::new();
    let mut sh = session("/d");
    assert!(matches!(sh.dispatch(&reg, &words(&["ls"])), Action::Ran(Effect::ListDir(false))));
    assert!(matches!(sh.dispatch(&reg, &words(&["ls", "-a"])), Action::Ran(Effect::ListDir(true))));
    assert!(matches!(sh.dispatch(&reg, &words(&["ls", "x", "all"])), Action::Ran(Effect::ListDir(true))));
    assert!(!show_all(&words(&["-al"])));
}

#[test]
fn empty_line_dispatches_nothing() {
    let reg = CommandRegistry::new();
    let mut sh = session("/d");
    assert!(matches!(sh.handle_line(&reg, ""), Action::Idle));
    assert!(matches!(sh.handle_line(&reg, "   \t "), Action::Idle));
    assert!(!sh.close_shell);
    assert_eq!(sh.curr_dir, "/d");
}

#[test]
fn unknown_command_is_not_found_and_session_runs_on() {
    let reg = CommandRegistry::new();
    let mut sh = session("/d");
    assert!(matches!(sh.handle_line(&reg, "foobar"), Action::NotFound));
    assert!(!sh.close_shell);
    assert_eq!(sh.curr_dir, "/d");
}

#[test]
fn handle_line_splits_on_whitespace() {
    let reg = CommandRegistry::new();
    let mut sh = session("/a");
    let p = requested_dir(sh.handle_line(&reg, "  cd   sub\n"));
    assert_eq!(p, "/a/sub");
    assert!(matches!(sh.handle_line(&reg, "quit\n"), Action::Ran(Effect::Nothing)));
    assert!(sh.close_shell);
}

#[test]
fn help_twice_gives_the_same_text() {
    let reg = CommandRegistry::new();
    let mut sh = session("/d");
    let first = printed(sh.dispatch(&reg, &words(&["help"])));
    let second = printed(sh.dispatch(&reg, &words(&["help"])));
    assert_eq!(first, second);
    assert!(!sh.close_shell);
    assert_eq!(sh.curr_dir, "/d");
}

#[test]
fn help_text_lists_primaries_in_order() {
    let mut sh = session("/d");
    let text = match HelpCommand.run(&mut sh, &[]) {
        Ok(Effect::Print(t)) => t,
        _ => panic!("help prints"),
    };
    assert!(text.starts_with("\nAvailable commands:\n\n"));
    assert!(text.contains("cd - Changes the current directory.\n      Syntax: cd [directory]\n\n"));
    assert!(!text.contains("exit"));
    assert!(!text.contains("cls"));
    let cd = text.find("cd - ").unwrap();
    let clear = text.find("clear - ").unwrap();
    let help = text.find("help - ").unwrap();
    let ls = text.find("ls - ").unwrap();
    let quit = text.find("quit - ").unwrap();
    assert!(cd < clear && clear < help && help < ls && ls < quit);
    assert_eq!(text, render_help(&CommandRegistry::new().list_commands()));
}

#[test]
fn commands_run_directly() {
    let mut sh = session("/d");
    assert!(matches!(ClearCommand.run(&mut sh, &[]), Ok(Effect::ClearScreen)));
    assert!(matches!(LsCommand.run(&mut sh, &words(&["all"])), Ok(Effect::ListDir(true))));
    assert!(matches!(CdCommand.run(&mut sh, &[]), Err(CmdError::NoDirectory)));
    assert!(!sh.close_shell);
    assert!(matches!(QuitCommand.run(&mut sh, &[]), Ok(Effect::Nothing)));
    assert!(sh.close_shell);
    assert_eq!(QuitCommand.description().syntax, "quit");
}

#[test]
fn prompt_substitutes_the_directory() {
    let sh = session("/home/me");
    assert_eq!(sh.prompt(), "/home/me > ");
    let config = Config::new("1".to_string(), "n".to_string(), "[{curr_dir}]$ ".to_string());
    let win = Shell::build(config, "\\\\?\\C:\\work".to_string());
    assert_eq!(win.prompt(), "[C:\\work]$ ");
}

#[test]
fn config_summary_names_name_and_version() {
    let config = Config::new("0.3".to_string(), "rshell".to_string(), "> ".to_string());
    assert_eq!(config.summary(), "name: rshell\nVersion: 0.3");
}

#[test]
fn error_messages() {
    assert_eq!(CmdError::InvalidPath.message(), "Invalid path or directory does not exist");
    assert_eq!(CmdError::ReadDirFailed.message(), "Failed to read the directory\n");
    assert_eq!(CmdError::ReadEntryFailed.message(), "Failed to read a directory entry");
}

#[test]
fn newline_only_line_is_idle() {
    let reg = CommandRegistry::new();
    let mut sh = session("/d");
    assert!(matches!(sh.handle_line(&reg, "\n"), Action::Idle));
    assert!(matches!(sh.handle_line(&reg, "\u{3000}\u{a0}\r\n"), Action::Idle));
    assert!(!sh.close_shell);
}

#[test]
fn unicode_whitespace_separates_words() {
    let reg = CommandRegistry::new();
    let mut sh = session("/a");
    let p = requested_dir(sh.handle_line(&reg, "cd\u{2009}sub"));
    assert_eq!(p, "/a/sub");
}
